//! The query of a Deepgram request: which parameters it holds, in which
//! order, and how they are written into the address.

use vstd::prelude::*;
use vstd::string::StringExecFns;
use vstd::string::StringSliceAdditionalSpecFns;
use crate::config::file::DeepgramConfig;
use crate::config::file::DeepgramConfigView;
use crate::config::file::default_utt_split;
use crate::config::file::spec_default_utt_split;
use crate::transcription::api::TranscriptionConfig;
use crate::transcription::api::TranscriptionConfigView;
use crate::transcription::api::texts;
use crate::transcription::model::TranscriptionModel;

verus! {

/// One `name=value` pair of a query.
pub struct QueryParam {
    pub name: Seq<char>,
    pub value: Seq<char>,
}

/// A byte that percent-encoding leaves as it is: an ASCII letter or digit,
/// `-`, `.`, `_` or `~`.
pub open spec fn is_unreserved(byte: u8) -> bool {
    ||| 0x30 <= byte <= 0x39
    ||| 0x41 <= byte <= 0x5a
    ||| 0x61 <= byte <= 0x7a
    ||| byte == 0x2d
    ||| byte == 0x2e
    ||| byte == 0x5f
    ||| byte == 0x7e
}

/// The upper-case hexadecimal digit of a value below 16.
pub open spec fn hex_digit(value: u8) -> char {
    if value < 10 {
        (0x30 + value) as u8 as char
    } else {
        (0x37 + value) as u8 as char
    }
}

/// What percent-encoding makes of one byte.
pub open spec fn percent_encoded_byte(byte: u8) -> Seq<char> {
    if is_unreserved(byte) {
        seq![byte as char]
    } else {
        seq!['%', hex_digit(byte / 16), hex_digit(byte % 16)]
    }
}

/// What percent-encoding makes of a run of bytes.
pub open spec fn percent_encoded(bytes: Seq<u8>) -> Seq<char>
    decreases bytes.len(),
{
    if bytes.len() == 0 {
        Seq::empty()
    } else {
        percent_encoded(bytes.drop_last()) + percent_encoded_byte(bytes.last())
    }
}

/// Percent-encodes `text` with `urlencoding::encode`, which walks the UTF-8
/// bytes of the text, keeps each unreserved byte and writes any other as `%`
/// and two upper-case hexadecimal digits.
#[verifier::external_body]
fn percent_encode(text: &str) -> (encoded: String)
    ensures
        encoded@ == percent_encoded(text.spec_bytes()),
{
    urlencoding::encode(text).into_owned()
}

/// The parameter of a feature flag: present, with the value `true`, only
/// where the flag is on.
pub open spec fn flag_param(name: Seq<char>, on: bool) -> Seq<QueryParam> {
    if on {
        seq![QueryParam { name, value: "true"@ }]
    } else {
        Seq::empty()
    }
}

/// The parameter of the pause length: present only where it differs from
/// the default.
pub open spec fn utt_split_param(seconds: Seq<char>) -> Seq<QueryParam> {
    if seconds == spec_default_utt_split() {
        Seq::empty()
    } else {
        seq![QueryParam { name: "utt_split"@, value: seconds }]
    }
}

/// The parameters that the Deepgram options give rise to, in request order.
pub open spec fn option_params(options: DeepgramConfigView) -> Seq<QueryParam> {
    flag_param("filler_words"@, options.filler_words)
        + flag_param("measurements"@, options.measurements)
        + flag_param("numerals"@, options.numerals)
        + flag_param("paragraphs"@, options.paragraphs)
        + flag_param("profanity_filter"@, options.profanity_filter)
        + flag_param("punctuate"@, options.punctuate)
        + flag_param("smart_format"@, options.smart_format)
        + flag_param("utterances"@, options.utterances)
        + utt_split_param(options.utt_split)
        + flag_param("mip_opt_out"@, options.mip_opt_out)
        + flag_param("detect_language"@, options.detect_language)
}

/// The name under which a model takes its keywords.
pub open spec fn spec_keyword_param_name(model: TranscriptionModel) -> Seq<char> {
    match model {
        TranscriptionModel::DeepgramNova3 => "keyterm"@,
        TranscriptionModel::DeepgramNova2 => "keywords"@,
        TranscriptionModel::Other => "keywords"@,
    }
}

/// One parameter per keyword, each value percent-encoded.
pub open spec fn keyword_params(name: Seq<char>, keywords: Seq<Seq<char>>) -> Seq<QueryParam> {
    Seq::new(
        keywords.len(),
        |i: int| QueryParam { name, value: percent_encoded(vstd::utf8::encode_utf8(keywords[i])) },
    )
}

/// Every parameter that follows the model in the query.
pub open spec fn query_params(config: TranscriptionConfigView) -> Seq<QueryParam> {
    option_params(config.providers.deepgram) + keyword_params(
        spec_keyword_param_name(config.model),
        config.keywords,
    )
}

/// The parameters as they are written behind the model: each as `&`, its
/// name, `=` and its value.
pub open spec fn rendered(params: Seq<QueryParam>) -> Seq<char>
    decreases params.len(),
{
    if params.len() == 0 {
        Seq::empty()
    } else {
        rendered(params.drop_last()) + "&"@ + params.last().name + "="@ + params.last().value
    }
}

/// The address of a request: the endpoint, the model and the parameters.
pub open spec fn spec_request_url(config: TranscriptionConfigView) -> Seq<char> {
    config.endpoint + "?model="@ + config.model_name + rendered(query_params(config))
}

/// The values that `params` gives under `name`, in order.
pub open spec fn values_named(params: Seq<QueryParam>, name: Seq<char>) -> Seq<Seq<char>>
    decreases params.len(),
{
    if params.len() == 0 {
        Seq::empty()
    } else {
        values_named(params.drop_last(), name) + if params.last().name == name {
            seq![params.last().value]
        } else {
            Seq::empty()
        }
    }
}

/// Writing two lists one after the other is writing their concatenation.
pub proof fn lemma_rendered_concat(a: Seq<QueryParam>, b: Seq<QueryParam>)
    ensures
        rendered(a + b) == rendered(a) + rendered(b),
    decreases b.len(),
{
    if b.len() == 0 {
        assert(a + b =~= a);
        assert(rendered(a) + rendered(b) =~= rendered(a));
    } else {
        assert((a + b).drop_last() =~= a + b.drop_last());
        assert((a + b).last() == b.last());
        lemma_rendered_concat(a, b.drop_last());
        assert(rendered(a + b) =~= rendered(a) + rendered(b));
    }
}

/// One parameter alone is written as `&`, its name, `=` and its value.
pub proof fn lemma_rendered_one(param: QueryParam)
    ensures
        rendered(seq![param]) == "&"@ + param.name + "="@ + param.value,
{
    let one = seq![param];
    assert(one.drop_last() =~= Seq::<QueryParam>::empty());
    assert(rendered(one.drop_last()) =~= Seq::<char>::empty());
    assert(rendered(one) =~= "&"@ + param.name + "="@ + param.value);
}

/// The name under which `model` takes its keywords: `keyterm` for Nova-3,
/// `keywords` for Nova-2 and for every other model.
pub fn keyword_param_name(model: TranscriptionModel) -> (name: &'static str)
    ensures
        name@ == spec_keyword_param_name(model),
{
    match model {
        TranscriptionModel::DeepgramNova3 => "keyterm",
        TranscriptionModel::DeepgramNova2 => "keywords",
        TranscriptionModel::Other => "keywords",
    }
}

/// Appends one parameter to an address.
fn append_param(url: &mut String, name: &str, value: &str)
    ensures
        final(url)@ == old(url)@ + rendered(seq![QueryParam { name: name@, value: value@ }]),
{
    proof {
        lemma_rendered_one(QueryParam { name: name@, value: value@ });
    }
    url.append("&");
    url.append(name);
    url.append("=");
    url.append(value);
}

/// Appends a feature flag to an address where the flag is on.
fn append_flag(url: &mut String, name: &str, on: bool)
    ensures
        final(url)@ == old(url)@ + rendered(flag_param(name@, on)),
{
    if on {
        append_param(url, name, "true");
    } else {
        assert(old(url)@ + rendered(flag_param(name@, on)) =~= old(url)@);
    }
}

/// Appends a feature flag behind the parameters already written.
fn append_next_flag(
    url: &mut String,
    name: &str,
    on: bool,
    Ghost(base): Ghost<Seq<char>>,
    Ghost(done): Ghost<Seq<QueryParam>>,
)
    requires
        old(url)@ == base + rendered(done),
    ensures
        final(url)@ == base + rendered(done + flag_param(name@, on)),
{
    append_flag(url, name, on);
    proof {
        lemma_rendered_concat(done, flag_param(name@, on));
        assert(url@ =~= base + rendered(done + flag_param(name@, on)));
    }
}

/// Appends the pause length behind the parameters already written, where
/// it is not the default.
fn append_utt_split(
    url: &mut String,
    seconds: &String,
    Ghost(base): Ghost<Seq<char>>,
    Ghost(done): Ghost<Seq<QueryParam>>,
)
    requires
        old(url)@ == base + rendered(done),
    ensures
        final(url)@ == base + rendered(done + utt_split_param(seconds@)),
{
    let default_seconds = default_utt_split();
    if *seconds != default_seconds {
        append_param(url, "utt_split", seconds.as_str());
    }
    proof {
        lemma_rendered_concat(done, utt_split_param(seconds@));
        assert(url@ =~= base + rendered(done + utt_split_param(seconds@)));
    }
}

/// Appends the parameters of the Deepgram options to an address.
fn append_options(url: &mut String, options: &DeepgramConfig)
    ensures
        final(url)@ == old(url)@ + rendered(option_params(options@)),
{
    let ghost base = url@;
    let ghost to_filler_words = flag_param("filler_words"@, options.filler_words);
    let ghost to_measurements = to_filler_words + flag_param("measurements"@, options.measurements);
    let ghost to_numerals = to_measurements + flag_param("numerals"@, options.numerals);
    let ghost to_paragraphs = to_numerals + flag_param("paragraphs"@, options.paragraphs);
    let ghost to_profanity_filter = to_paragraphs + flag_param("profanity_filter"@, options.profanity_filter);
    let ghost to_punctuate = to_profanity_filter + flag_param("punctuate"@, options.punctuate);
    let ghost to_smart_format = to_punctuate + flag_param("smart_format"@, options.smart_format);
    let ghost to_utterances = to_smart_format + flag_param("utterances"@, options.utterances);
    let ghost to_utt_split = to_utterances + utt_split_param(options.utt_split@);
    let ghost to_mip_opt_out = to_utt_split + flag_param("mip_opt_out"@, options.mip_opt_out);
    append_flag(url, "filler_words", options.filler_words);
    append_next_flag(url, "measurements", options.measurements, Ghost(base), Ghost(to_filler_words));
    append_next_flag(url, "numerals", options.numerals, Ghost(base), Ghost(to_measurements));
    append_next_flag(url, "paragraphs", options.paragraphs, Ghost(base), Ghost(to_numerals));
    append_next_flag(url, "profanity_filter", options.profanity_filter, Ghost(base), Ghost(to_paragraphs));
    append_next_flag(url, "punctuate", options.punctuate, Ghost(base), Ghost(to_profanity_filter));
    append_next_flag(url, "smart_format", options.smart_format, Ghost(base), Ghost(to_punctuate));
    append_next_flag(url, "utterances", options.utterances, Ghost(base), Ghost(to_smart_format));
    append_utt_split(url, &options.utt_split, Ghost(base), Ghost(to_utterances));
    append_next_flag(url, "mip_opt_out", options.mip_opt_out, Ghost(base), Ghost(to_utt_split));
    append_next_flag(url, "detect_language", options.detect_language, Ghost(base), Ghost(to_mip_opt_out));
}

/// Appends one parameter per keyword to an address, each value
/// percent-encoded.
fn append_keywords(url: &mut String, name: &str, keywords: &Vec<String>)
    ensures
        final(url)@ == old(url)@ + rendered(keyword_params(name@, texts(keywords@))),
{
    let ghost base = url@;
    let ghost all = keyword_params(name@, texts(keywords@));
    let n: usize = keywords.len();
    let mut i: usize = 0;
    assert(base + rendered(all.subrange(0, 0)) =~= base);
    while i < n
        invariant
            n == keywords@.len(),
            i <= n,
            all == keyword_params(name@, texts(keywords@)),
            url@ == base + rendered(all.subrange(0, i as int)),
        decreases n - i,
    {
        let encoded = percent_encode(keywords[i].as_str());
        append_param(url, name, encoded.as_str());
        proof {
            let before = all.subrange(0, i as int);
            let one = seq![QueryParam { name: name@, value: encoded@ }];
            assert(texts(keywords@)[i as int] == keywords@[i as int]@);
            assert(all[i as int] == one[0]);
            assert(all.subrange(0, i + 1) =~= before + one);
            lemma_rendered_concat(before, one);
            assert(url@ =~= base + rendered(all.subrange(0, i + 1)));
        }
        i += 1;
    }
    assert(all.subrange(0, n as int) =~= all);
}

/// The address of the request that `config` asks for: the endpoint, then
/// `?model=` and the model's name, then one `&name=true` for each feature
/// that is on, the pause length where it is not the default, and one
/// percent-encoded parameter per keyword.
pub fn request_url(config: &TranscriptionConfig) -> (url: String)
    ensures
        url@ == spec_request_url(config@),
{
    let mut url = String::from_str(config.endpoint.as_str());
    url.append("?model=");
    url.append(config.model_name.as_str());
    let ghost base = url@;
    append_options(&mut url, &config.providers.deepgram);
    append_keywords(&mut url, keyword_param_name(config.model), &config.keywords);
    proof {
        lemma_rendered_concat(
            option_params(config@.providers.deepgram),
            keyword_params(spec_keyword_param_name(config@.model), config@.keywords),
        );
        assert(url@ =~= spec_request_url(config@));
    }
    url
}

/// The values under a name in two lists, one after the other, are those
/// of the first followed by those of the second.
pub proof fn lemma_values_concat(a: Seq<QueryParam>, b: Seq<QueryParam>, name: Seq<char>)
    ensures
        values_named(a + b, name) == values_named(a, name) + values_named(b, name),
    decreases b.len(),
{
    if b.len() == 0 {
        assert(a + b =~= a);
        assert(values_named(a, name) + values_named(b, name) =~= values_named(a, name));
    } else {
        assert((a + b).drop_last() =~= a + b.drop_last());
        assert((a + b).last() == b.last());
        lemma_values_concat(a, b.drop_last(), name);
        assert(values_named(a + b, name) =~= values_named(a, name) + values_named(b, name));
    }
}

/// What a list of at most one parameter gives under a name.
proof fn lemma_values_short(params: Seq<QueryParam>, name: Seq<char>)
    requires
        params.len() <= 1,
    ensures
        values_named(params, name) == if params.len() == 1 && params[0].name == name {
            seq![params[0].value]
        } else {
            Seq::empty()
        },
{
    if params.len() == 1 {
        assert(params.drop_last().len() == 0);
        assert(values_named(params.drop_last(), name) =~= Seq::empty());
        assert(values_named(params, name) =~= if params[0].name == name {
            seq![params[0].value]
        } else {
            Seq::empty()
        });
    }
}

/// Keywords written under one name give nothing under another.
proof fn lemma_values_keywords(own: Seq<char>, keywords: Seq<Seq<char>>, name: Seq<char>)
    requires
        own != name,
    ensures
        values_named(keyword_params(own, keywords), name) == Seq::<Seq<char>>::empty(),
    decreases keywords.len(),
{
    let params = keyword_params(own, keywords);
    if keywords.len() > 0 {
        assert(params.drop_last() =~= keyword_params(own, keywords.drop_last()));
        lemma_values_keywords(own, keywords.drop_last(), name);
        assert(values_named(params, name) =~= Seq::<Seq<char>>::empty());
    }
}

/// What the parameters of the options give under a name: what each option
/// gives, in request order.
proof fn lemma_values_options(o: DeepgramConfigView, name: Seq<char>)
    ensures
        values_named(option_params(o), name) == values_named(
            flag_param("filler_words"@, o.filler_words),
            name,
        ) + values_named(flag_param("measurements"@, o.measurements), name) + values_named(
            flag_param("numerals"@, o.numerals),
            name,
        ) + values_named(flag_param("paragraphs"@, o.paragraphs), name) + values_named(
            flag_param("profanity_filter"@, o.profanity_filter),
            name,
        ) + values_named(flag_param("punctuate"@, o.punctuate), name) + values_named(
            flag_param("smart_format"@, o.smart_format),
            name,
        ) + values_named(flag_param("utterances"@, o.utterances), name) + values_named(
            utt_split_param(o.utt_split),
            name,
        ) + values_named(flag_param("mip_opt_out"@, o.mip_opt_out), name) + values_named(
            flag_param("detect_language"@, o.detect_language),
            name,
        ),
{
    let to_filler_words = flag_param("filler_words"@, o.filler_words);
    let to_measurements = to_filler_words + flag_param("measurements"@, o.measurements);
    let to_numerals = to_measurements + flag_param("numerals"@, o.numerals);
    let to_paragraphs = to_numerals + flag_param("paragraphs"@, o.paragraphs);
    let to_profanity_filter = to_paragraphs + flag_param("profanity_filter"@, o.profanity_filter);
    let to_punctuate = to_profanity_filter + flag_param("punctuate"@, o.punctuate);
    let to_smart_format = to_punctuate + flag_param("smart_format"@, o.smart_format);
    let to_utterances = to_smart_format + flag_param("utterances"@, o.utterances);
    let to_utt_split = to_utterances + utt_split_param(o.utt_split);
    let to_mip_opt_out = to_utt_split + flag_param("mip_opt_out"@, o.mip_opt_out);
    lemma_values_concat(to_filler_words, flag_param("measurements"@, o.measurements), name);
    lemma_values_concat(to_measurements, flag_param("numerals"@, o.numerals), name);
    lemma_values_concat(to_numerals, flag_param("paragraphs"@, o.paragraphs), name);
    lemma_values_concat(to_paragraphs, flag_param("profanity_filter"@, o.profanity_filter), name);
    lemma_values_concat(to_profanity_filter, flag_param("punctuate"@, o.punctuate), name);
    lemma_values_concat(to_punctuate, flag_param("smart_format"@, o.smart_format), name);
    lemma_values_concat(to_smart_format, flag_param("utterances"@, o.utterances), name);
    lemma_values_concat(to_utterances, utt_split_param(o.utt_split), name);
    lemma_values_concat(to_utt_split, flag_param("mip_opt_out"@, o.mip_opt_out), name);
    lemma_values_concat(to_mip_opt_out, flag_param("detect_language"@, o.detect_language), name);
}

/// A feature flag gives nothing under a name other than its own.
proof fn lemma_values_other_flag(flag: Seq<char>, on: bool, name: Seq<char>)
    requires
        flag != name,
    ensures
        values_named(flag_param(flag, on), name) == Seq::<Seq<char>>::empty(),
{
    lemma_values_short(flag_param(flag, on), name);
}

/// What the pause length gives under its own name.
proof fn lemma_values_utt_split(seconds: Seq<char>)
    ensures
        values_named(utt_split_param(seconds), "utt_split"@) == if seconds
            == spec_default_utt_split() {
            Seq::<Seq<char>>::empty()
        } else {
            seq![seconds]
        },
{
    lemma_values_short(utt_split_param(seconds), "utt_split"@);
}

/// What the parameters of the options give under the name of the pause
/// length.
proof fn lemma_utt_split_in_options(o: DeepgramConfigView)
    ensures
        values_named(option_params(o), "utt_split"@) == values_named(
            utt_split_param(o.utt_split),
            "utt_split"@,
        ),
{
    let name = "utt_split"@;
    let none = Seq::<Seq<char>>::empty();
    let own = values_named(utt_split_param(o.utt_split), name);
    lemma_all_names_differ();
    lemma_values_options(o, name);
    lemma_values_other_flag("filler_words"@, o.filler_words, name);
    lemma_values_other_flag("measurements"@, o.measurements, name);
    lemma_values_other_flag("numerals"@, o.numerals, name);
    lemma_values_other_flag("paragraphs"@, o.paragraphs, name);
    lemma_values_other_flag("profanity_filter"@, o.profanity_filter, name);
    lemma_values_other_flag("punctuate"@, o.punctuate, name);
    lemma_values_other_flag("smart_format"@, o.smart_format, name);
    lemma_values_other_flag("utterances"@, o.utterances, name);
    lemma_values_other_flag("mip_opt_out"@, o.mip_opt_out, name);
    lemma_values_other_flag("detect_language"@, o.detect_language, name);
    assert(none + none =~= none);
    assert(none + own =~= own);
    assert(own + none =~= own);
}

/// The pause length never stands in a query while it is the default; any
/// other pause length stands there exactly once, as the text given.
pub proof fn lemma_utt_split_in_query(config: TranscriptionConfigView)
    ensures
        values_named(query_params(config), "utt_split"@) == if config.providers.deepgram.utt_split
            == spec_default_utt_split() {
            Seq::<Seq<char>>::empty()
        } else {
            seq![config.providers.deepgram.utt_split]
        },
{
    let name = "utt_split"@;
    let o = config.providers.deepgram;
    let own = spec_keyword_param_name(config.model);
    let from_options = values_named(option_params(o), name);
    lemma_all_names_differ();
    lemma_values_concat(option_params(o), keyword_params(own, config.keywords), name);
    lemma_values_keywords(own, config.keywords, name);
    lemma_utt_split_in_options(o);
    lemma_values_utt_split(o.utt_split);
    assert(from_options + Seq::<Seq<char>>::empty() =~= from_options);
}

/// Whether `name` is the name of a feature flag.
pub open spec fn is_flag_name(name: Seq<char>) -> bool {
    ||| name == "filler_words"@
    ||| name == "measurements"@
    ||| name == "numerals"@
    ||| name == "paragraphs"@
    ||| name == "profanity_filter"@
    ||| name == "punctuate"@
    ||| name == "smart_format"@
    ||| name == "utterances"@
    ||| name == "mip_opt_out"@
    ||| name == "detect_language"@
}

/// The state of the feature flag called `name`; off where no flag is
/// called so.
pub open spec fn flag_named(options: DeepgramConfigView, name: Seq<char>) -> bool {
    if name == "filler_words"@ {
        options.filler_words
    }     else if name == "measurements"@ {
        options.measurements
    }     else if name == "numerals"@ {
        options.numerals
    }     else if name == "paragraphs"@ {
        options.paragraphs
    }     else if name == "profanity_filter"@ {
        options.profanity_filter
    }     else if name == "punctuate"@ {
        options.punctuate
    }     else if name == "smart_format"@ {
        options.smart_format
    }     else if name == "utterances"@ {
        options.utterances
    }     else if name == "mip_opt_out"@ {
        options.mip_opt_out
    }     else if name == "detect_language"@ {
        options.detect_language
    } else {
        false
    }
}

/// No two names of a query are the same text.
proof fn lemma_all_names_differ()
    ensures
        "filler_words"@ != "measurements"@,
        "filler_words"@ != "numerals"@,
        "filler_words"@ != "paragraphs"@,
        "filler_words"@ != "profanity_filter"@,
        "filler_words"@ != "punctuate"@,
        "filler_words"@ != "smart_format"@,
        "filler_words"@ != "utterances"@,
        "filler_words"@ != "mip_opt_out"@,
        "filler_words"@ != "detect_language"@,
        "filler_words"@ != "utt_split"@,
        "filler_words"@ != "keyterm"@,
        "filler_words"@ != "keywords"@,
        "measurements"@ != "numerals"@,
        "measurements"@ != "paragraphs"@,
        "measurements"@ != "profanity_filter"@,
        "measurements"@ != "punctuate"@,
        "measurements"@ != "smart_format"@,
        "measurements"@ != "utterances"@,
        "measurements"@ != "mip_opt_out"@,
        "measurements"@ != "detect_language"@,
        "measurements"@ != "utt_split"@,
        "measurements"@ != "keyterm"@,
        "measurements"@ != "keywords"@,
        "numerals"@ != "paragraphs"@,
        "numerals"@ != "profanity_filter"@,
        "numerals"@ != "punctuate"@,
        "numerals"@ != "smart_format"@,
        "numerals"@ != "utterances"@,
        "numerals"@ != "mip_opt_out"@,
        "numerals"@ != "detect_language"@,
        "numerals"@ != "utt_split"@,
        "numerals"@ != "keyterm"@,
        "numerals"@ != "keywords"@,
        "paragraphs"@ != "profanity_filter"@,
        "paragraphs"@ != "punctuate"@,
        "paragraphs"@ != "smart_format"@,
        "paragraphs"@ != "utterances"@,
        "paragraphs"@ != "mip_opt_out"@,
        "paragraphs"@ != "detect_language"@,
        "paragraphs"@ != "utt_split"@,
        "paragraphs"@ != "keyterm"@,
        "paragraphs"@ != "keywords"@,
        "profanity_filter"@ != "punctuate"@,
        "profanity_filter"@ != "smart_format"@,
        "profanity_filter"@ != "utterances"@,
        "profanity_filter"@ != "mip_opt_out"@,
        "profanity_filter"@ != "detect_language"@,
        "profanity_filter"@ != "utt_split"@,
        "profanity_filter"@ != "keyterm"@,
        "profanity_filter"@ != "keywords"@,
        "punctuate"@ != "smart_format"@,
        "punctuate"@ != "utterances"@,
        "punctuate"@ != "mip_opt_out"@,
        "punctuate"@ != "detect_language"@,
        "punctuate"@ != "utt_split"@,
        "punctuate"@ != "keyterm"@,
        "punctuate"@ != "keywords"@,
        "smart_format"@ != "utterances"@,
        "smart_format"@ != "mip_opt_out"@,
        "smart_format"@ != "detect_language"@,
        "smart_format"@ != "utt_split"@,
        "smart_format"@ != "keyterm"@,
        "smart_format"@ != "keywords"@,
        "utterances"@ != "mip_opt_out"@,
        "utterances"@ != "detect_language"@,
        "utterances"@ != "utt_split"@,
        "utterances"@ != "keyterm"@,
        "utterances"@ != "keywords"@,
        "mip_opt_out"@ != "detect_language"@,
        "mip_opt_out"@ != "utt_split"@,
        "mip_opt_out"@ != "keyterm"@,
        "mip_opt_out"@ != "keywords"@,
        "detect_language"@ != "utt_split"@,
        "detect_language"@ != "keyterm"@,
        "detect_language"@ != "keywords"@,
        "utt_split"@ != "keyterm"@,
        "utt_split"@ != "keywords"@,
        "keyterm"@ != "keywords"@,
{
    reveal_strlit("filler_words");
    reveal_strlit("measurements");
    reveal_strlit("numerals");
    reveal_strlit("paragraphs");
    reveal_strlit("profanity_filter");
    reveal_strlit("punctuate");
    reveal_strlit("smart_format");
    reveal_strlit("utterances");
    reveal_strlit("mip_opt_out");
    reveal_strlit("detect_language");
    reveal_strlit("utt_split");
    reveal_strlit("keyterm");
    reveal_strlit("keywords");
    assert("filler_words"@.len() == 12);
    assert("filler_words"@[0] == 'f');
    assert("measurements"@.len() == 12);
    assert("measurements"@[0] == 'm');
    assert("numerals"@.len() == 8);
    assert("numerals"@[0] == 'n');
    assert("paragraphs"@.len() == 10);
    assert("paragraphs"@[0] == 'p');
    assert("profanity_filter"@.len() == 16);
    assert("profanity_filter"@[0] == 'p');
    assert("punctuate"@.len() == 9);
    assert("punctuate"@[0] == 'p');
    assert("smart_format"@.len() == 12);
    assert("smart_format"@[0] == 's');
    assert("utterances"@.len() == 10);
    assert("utterances"@[0] == 'u');
    assert("mip_opt_out"@.len() == 11);
    assert("mip_opt_out"@[0] == 'm');
    assert("detect_language"@.len() == 15);
    assert("detect_language"@[0] == 'd');
    assert("utt_split"@.len() == 9);
    assert("utt_split"@[0] == 'u');
    assert("keyterm"@.len() == 7);
    assert("keyterm"@[0] == 'k');
    assert("keywords"@.len() == 8);
    assert("keywords"@[0] == 'k');
}

/// Under `name`, `params` gives the value `true` once where `on` holds,
/// and nothing where it does not.
#[verifier::opaque]
spec fn gives_flag(params: Seq<QueryParam>, name: Seq<char>, on: bool) -> bool {
    values_named(params, name) == if on {
        seq!["true"@]
    } else {
        Seq::<Seq<char>>::empty()
    }
}

/// What one feature flag alone gives under a name.
proof fn lemma_gives_first_flag(flag: Seq<char>, on: bool, name: Seq<char>)
    ensures
        gives_flag(flag_param(flag, on), name, on && flag == name),
{
    reveal(gives_flag);
    lemma_values_short(flag_param(flag, on), name);
}

/// What one more feature flag adds under a name that the parameters before
/// it have not given a value yet, unless it is another flag's name.
proof fn lemma_gives_next_flag(
    before: Seq<QueryParam>,
    flag: Seq<char>,
    on: bool,
    name: Seq<char>,
    seen: bool,
)
    requires
        gives_flag(before, name, seen),
        !(seen && flag == name),
    ensures
        gives_flag(before + flag_param(flag, on), name, seen || (on && flag == name)),
{
    reveal(gives_flag);
    let none = Seq::<Seq<char>>::empty();
    let so_far = values_named(before, name);
    lemma_values_concat(before, flag_param(flag, on), name);
    lemma_values_short(flag_param(flag, on), name);
    assert(so_far + none =~= so_far);
    assert(none + seq!["true"@] =~= seq!["true"@]);
}

/// The pause length adds nothing under another name.
proof fn lemma_gives_past_utt_split(
    before: Seq<QueryParam>,
    seconds: Seq<char>,
    name: Seq<char>,
    seen: bool,
)
    requires
        gives_flag(before, name, seen),
        name != "utt_split"@,
    ensures
        gives_flag(before + utt_split_param(seconds), name, seen),
{
    reveal(gives_flag);
    let so_far = values_named(before, name);
    lemma_values_concat(before, utt_split_param(seconds), name);
    lemma_values_short(utt_split_param(seconds), name);
    assert(so_far + Seq::<Seq<char>>::empty() =~= so_far);
}

/// Keywords add nothing under a name other than their own.
proof fn lemma_gives_past_keywords(
    before: Seq<QueryParam>,
    own: Seq<char>,
    keywords: Seq<Seq<char>>,
    name: Seq<char>,
    seen: bool,
)
    requires
        gives_flag(before, name, seen),
        name != own,
    ensures
        values_named(before + keyword_params(own, keywords), name) == if seen {
            seq!["true"@]
        } else {
            Seq::<Seq<char>>::empty()
        },
{
    reveal(gives_flag);
    let so_far = values_named(before, name);
    lemma_values_concat(before, keyword_params(own, keywords), name);
    lemma_values_keywords(own, keywords, name);
    assert(so_far + Seq::<Seq<char>>::empty() =~= so_far);
}

/// What the first four options give under a name.
proof fn lemma_gives_first_options(o: DeepgramConfigView, name: Seq<char>)
    ensures
        gives_flag(
            flag_param("filler_words"@, o.filler_words) + flag_param("measurements"@, o.measurements) + flag_param("numerals"@, o.numerals) + flag_param("paragraphs"@, o.paragraphs),
            name,
            (o.filler_words && name == "filler_words"@) || (o.measurements && name == "measurements"@) || (o.numerals && name == "numerals"@) || (o.paragraphs && name == "paragraphs"@),
        ),
{
    lemma_all_names_differ();
    let to_filler_words = flag_param("filler_words"@, o.filler_words);
    let seen_filler_words = o.filler_words && name == "filler_words"@;
    lemma_gives_first_flag("filler_words"@, o.filler_words, name);
    let to_measurements = to_filler_words + flag_param("measurements"@, o.measurements);
    let seen_measurements = seen_filler_words || (o.measurements && name == "measurements"@);
    lemma_gives_next_flag(to_filler_words, "measurements"@, o.measurements, name, seen_filler_words);
    let to_numerals = to_measurements + flag_param("numerals"@, o.numerals);
    let seen_numerals = seen_measurements || (o.numerals && name == "numerals"@);
    lemma_gives_next_flag(to_measurements, "numerals"@, o.numerals, name, seen_measurements);
    let to_paragraphs = to_numerals + flag_param("paragraphs"@, o.paragraphs);
    let seen_paragraphs = seen_numerals || (o.paragraphs && name == "paragraphs"@);
    lemma_gives_next_flag(to_numerals, "paragraphs"@, o.paragraphs, name, seen_numerals);
}

/// What the next four options add under a name that is none of theirs
/// where a value was given before.
proof fn lemma_gives_next_options(
    before: Seq<QueryParam>,
    o: DeepgramConfigView,
    name: Seq<char>,
    seen: bool,
)
    requires
        gives_flag(before, name, seen),
        !(seen && name == "profanity_filter"@),
        !(seen && name == "punctuate"@),
        !(seen && name == "smart_format"@),
        !(seen && name == "utterances"@),
    ensures
        gives_flag(
            before + flag_param("profanity_filter"@, o.profanity_filter) + flag_param("punctuate"@, o.punctuate) + flag_param("smart_format"@, o.smart_format) + flag_param("utterances"@, o.utterances),
            name,
            seen || (o.profanity_filter && name == "profanity_filter"@) || (o.punctuate && name == "punctuate"@) || (o.smart_format && name == "smart_format"@) || (o.utterances && name == "utterances"@),
        ),
{
    lemma_all_names_differ();
    let to_profanity_filter = before + flag_param("profanity_filter"@, o.profanity_filter);
    let seen_profanity_filter = seen || (o.profanity_filter && name == "profanity_filter"@);
    lemma_gives_next_flag(before, "profanity_filter"@, o.profanity_filter, name, seen);
    let to_punctuate = to_profanity_filter + flag_param("punctuate"@, o.punctuate);
    let seen_punctuate = seen_profanity_filter || (o.punctuate && name == "punctuate"@);
    lemma_gives_next_flag(to_profanity_filter, "punctuate"@, o.punctuate, name, seen_profanity_filter);
    let to_smart_format = to_punctuate + flag_param("smart_format"@, o.smart_format);
    let seen_smart_format = seen_punctuate || (o.smart_format && name == "smart_format"@);
    lemma_gives_next_flag(to_punctuate, "smart_format"@, o.smart_format, name, seen_punctuate);
    let to_utterances = to_smart_format + flag_param("utterances"@, o.utterances);
    let seen_utterances = seen_smart_format || (o.utterances && name == "utterances"@);
    lemma_gives_next_flag(to_smart_format, "utterances"@, o.utterances, name, seen_smart_format);
}

/// What the last three options add under a name that is none of theirs
/// where a value was given before.
proof fn lemma_gives_last_options(
    before: Seq<QueryParam>,
    o: DeepgramConfigView,
    name: Seq<char>,
    seen: bool,
)
    requires
        gives_flag(before, name, seen),
        !(seen && name == "mip_opt_out"@),
        !(seen && name == "detect_language"@),
        name != "utt_split"@,
    ensures
        gives_flag(
            before + utt_split_param(o.utt_split) + flag_param("mip_opt_out"@, o.mip_opt_out) + flag_param("detect_language"@, o.detect_language),
            name,
            seen || (o.mip_opt_out && name == "mip_opt_out"@) || (o.detect_language && name == "detect_language"@),
        ),
{
    lemma_all_names_differ();
    let to_utt_split = before + utt_split_param(o.utt_split);
    lemma_gives_past_utt_split(before, o.utt_split, name, seen);
    let to_mip_opt_out = to_utt_split + flag_param("mip_opt_out"@, o.mip_opt_out);
    let seen_mip_opt_out = seen || (o.mip_opt_out && name == "mip_opt_out"@);
    lemma_gives_next_flag(to_utt_split, "mip_opt_out"@, o.mip_opt_out, name, seen);
    let to_detect_language = to_mip_opt_out + flag_param("detect_language"@, o.detect_language);
    let seen_detect_language = seen_mip_opt_out || (o.detect_language && name == "detect_language"@);
    lemma_gives_next_flag(to_mip_opt_out, "detect_language"@, o.detect_language, name, seen_mip_opt_out);
}

/// What the parameters of the options give under the name of a feature
/// flag.
proof fn lemma_flag_in_options(o: DeepgramConfigView, name: Seq<char>)
    requires
        is_flag_name(name),
    ensures
        gives_flag(option_params(o), name, flag_named(o, name)),
{
    lemma_all_names_differ();
    let first = flag_param("filler_words"@, o.filler_words) + flag_param("measurements"@, o.measurements) + flag_param("numerals"@, o.numerals) + flag_param("paragraphs"@, o.paragraphs);
    let seen_first = (o.filler_words && name == "filler_words"@) || (o.measurements && name == "measurements"@) || (o.numerals && name == "numerals"@) || (o.paragraphs && name == "paragraphs"@);
    lemma_gives_first_options(o, name);
    let second = first + flag_param("profanity_filter"@, o.profanity_filter) + flag_param("punctuate"@, o.punctuate) + flag_param("smart_format"@, o.smart_format) + flag_param("utterances"@, o.utterances);
    let seen_second = seen_first || (o.profanity_filter && name == "profanity_filter"@) || (o.punctuate && name == "punctuate"@) || (o.smart_format && name == "smart_format"@) || (o.utterances && name == "utterances"@);
    lemma_gives_next_options(first, o, name, seen_first);
    let third = second + utt_split_param(o.utt_split) + flag_param("mip_opt_out"@, o.mip_opt_out) + flag_param("detect_language"@, o.detect_language);
    let seen_third = seen_second || (o.mip_opt_out && name == "mip_opt_out"@) || (o.detect_language && name == "detect_language"@);
    lemma_gives_last_options(second, o, name, seen_second);
    assert(third == option_params(o));
    assert(seen_third == flag_named(o, name));
}

/// A feature flag stands in the query exactly when it is on, and then
/// once, with the value `true`.
pub proof fn lemma_flag_in_query(config: TranscriptionConfigView, name: Seq<char>)
    requires
        is_flag_name(name),
    ensures
        values_named(query_params(config), name) == if flag_named(
            config.providers.deepgram,
            name,
        ) {
            seq!["true"@]
        } else {
            Seq::<Seq<char>>::empty()
        },
{
    let o = config.providers.deepgram;
    let own = spec_keyword_param_name(config.model);
    lemma_all_names_differ();
    lemma_flag_in_options(o, name);
    lemma_gives_past_keywords(option_params(o), own, config.keywords, name, flag_named(o, name));
}

} // verus!
