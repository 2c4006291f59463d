//! Configuration: a debug flag, a provider selector out of a closed set, and a
//! model identifier, loaded from configuration text and validated against the
//! schema `{ debug: bool, provider: { type: tag }, model: string }`.

use vstd::prelude::*;
use vstd::string::StrSliceExecFns;
use vstd::string::StringExecFns;

verus! {

/// The closed set of LLM providers an agent can be bound to.
#[derive(Clone, Copy, Debug, PartialEq, Eq)]
pub enum Provider {
    OpenAI,
    Anthropic,
    Azure,
}

/// The configuration record: loaded once, immutable afterwards.
#[derive(Debug, PartialEq, Eq)]
pub struct Settings {
    pub debug: bool,
    pub provider: Provider,
    pub model: String,
}

/// Why configuration text was rejected.
#[derive(Debug, Clone, PartialEq, Eq)]
pub enum ConfigurationError {
    /// The text is not well-formed configuration syntax.
    Syntax { message: String },
    /// A required field is missing or has the wrong type.
    Field { key: String, message: String },
    /// The provider tag is not one of the closed set.
    UnknownProvider { tag: String },
}

impl ConfigurationError {
    /// What `describe` says of the rejection.
    pub open spec fn spec_describe(self) -> Seq<char> {
        match self {
            ConfigurationError::Syntax { message } => "configuration text does not parse: "@
                + message@,
            ConfigurationError::Field { key, message } => "configuration field "@ + key@ + ": "@
                + message@,
            ConfigurationError::UnknownProvider { tag } => "unknown provider type: "@ + tag@,
        }
    }

    /// The rejection as one line of text.
    pub fn describe(&self) -> (text: String)
        ensures
            text@ == self.spec_describe(),
    {
        match self {
            ConfigurationError::Syntax { message } => {
                let mut out: String = "configuration text does not parse: ".to_owned();
                out.append(message.as_str());
                out
            },
            ConfigurationError::Field { key, message } => {
                let mut out: String = "configuration field ".to_owned();
                out.append(key.as_str());
                out.append(": ");
                out.append(message.as_str());
                out
            },
            ConfigurationError::UnknownProvider { tag } => {
                let mut out: String = "unknown provider type: ".to_owned();
                out.append(tag.as_str());
                out
            },
        }
    }
}

/// The provider tags the schema accepts.
pub open spec fn is_known_tag(tag: Seq<char>) -> bool {
    ||| tag == "OpenAI"@
    ||| tag == "Anthropic"@
    ||| tag == "Azure"@
}

/// Which provider a tag selects, if any.
pub open spec fn provider_of_tag(tag: Seq<char>) -> Option<Provider> {
    if tag == "OpenAI"@ {
        Some(Provider::OpenAI)
    } else if tag == "Anthropic"@ {
        Some(Provider::Anthropic)
    } else if tag == "Azure"@ {
        Some(Provider::Azure)
    } else {
        None
    }
}

/// The tag under which a provider is written.
pub open spec fn tag_of_provider(p: Provider) -> Seq<char> {
    match p {
        Provider::OpenAI => "OpenAI"@,
        Provider::Anthropic => "Anthropic"@,
        Provider::Azure => "Azure"@,
    }
}

/// Law: the tag written for a provider always reads back as that provider, so
/// the selector part of a configuration record survives a round trip through
/// its textual form.
pub proof fn lemma_tag_round_trip(p: Provider)
    ensures
        provider_of_tag(tag_of_provider(p)) == Some(p),
{
    reveal_strlit("OpenAI");
    reveal_strlit("Anthropic");
    reveal_strlit("Azure");
    assert("OpenAI"@.len() == 6);
    assert("Anthropic"@.len() == 9);
    assert("Azure"@.len() == 5);
}

/// Law: a tag outside the closed set selects no provider, so validation can
/// only reject it — and text whose `provider.type` reads back as such a tag
/// never loads, whatever the rest of the record holds.
pub proof fn lemma_unknown_tag_rejected(tag: Seq<char>, text: Seq<char>)
    requires
        !is_known_tag(tag),
    ensures
        provider_of_tag(tag) is None,
        toml_text_at(text, "provider.type"@) == Some(tag) ==> !spec_loads(text),
{
}

fn str_eq(a: &str, b: &str) -> (r: bool)
    ensures
        r == (a@ == b@),
{
    let x: String = a.to_owned();
    let y: String = b.to_owned();
    x == y
}

/// Maps a provider tag to its provider; `UnknownProvider` exactly on tags
/// outside the closed set.
pub fn provider_from_tag(tag: &str) -> (r: Result<Provider, ConfigurationError>)
    ensures
        (r is Ok) == is_known_tag(tag@),
        r matches Ok(p) ==> provider_of_tag(tag@) == Some(p),
        r matches Err(e) ==> (e matches ConfigurationError::UnknownProvider { tag: t } && t@
            == tag@),
{
    if str_eq(tag, "OpenAI") {
        Ok(Provider::OpenAI)
    } else if str_eq(tag, "Anthropic") {
        Ok(Provider::Anthropic)
    } else if str_eq(tag, "Azure") {
        Ok(Provider::Azure)
    } else {
        Err(ConfigurationError::UnknownProvider { tag: tag.to_owned() })
    }
}

/// How one character is written inside a quoted configuration string: quote,
/// backslash, newline, carriage return and tab escaped, every other character
/// as itself.
pub open spec fn escape_char(c: char) -> Seq<char> {
    if c == '"' {
        seq!['\\', '"']
    } else if c == '\\' {
        seq!['\\', '\\']
    } else if c == '\n' {
        seq!['\\', 'n']
    } else if c == '\r' {
        seq!['\\', 'r']
    } else if c == '\t' {
        seq!['\\', 't']
    } else {
        seq![c]
    }
}

/// A text as it stands inside a quoted configuration string.
pub open spec fn spec_escaped(s: Seq<char>) -> Seq<char>
    decreases s.len(),
{
    if s.len() == 0 {
        Seq::empty()
    } else {
        escape_char(s[0]) + spec_escaped(s.drop_first())
    }
}

proof fn lemma_escaped_push(s: Seq<char>, c: char)
    ensures
        spec_escaped(s.push(c)) == spec_escaped(s) + escape_char(c),
    decreases s.len(),
{
    let e = s.push(c);
    if s.len() == 0 {
        assert(e.drop_first() =~= Seq::<char>::empty());
        assert(e[0] == c);
        assert(spec_escaped(e) == escape_char(c) + spec_escaped(Seq::<char>::empty()));
        assert(escape_char(c) + Seq::<char>::empty() =~= escape_char(c));
        assert(Seq::<char>::empty() + escape_char(c) =~= escape_char(c));
    } else {
        let rest = s.drop_first();
        assert(e.drop_first() =~= rest.push(c));
        lemma_escaped_push(rest, c);
        assert(e[0] == s[0]);
        assert(spec_escaped(e) == escape_char(s[0]) + spec_escaped(rest.push(c)));
        assert(spec_escaped(e) == escape_char(s[0]) + (spec_escaped(rest) + escape_char(c)));
        assert(escape_char(s[0]) + (spec_escaped(rest) + escape_char(c)) =~= (escape_char(s[0])
            + spec_escaped(rest)) + escape_char(c));
        assert(spec_escaped(s) == escape_char(s[0]) + spec_escaped(rest));
    }
}

fn escape_text(s: &str) -> (r: String)
    ensures
        r@ == spec_escaped(s@),
{
    let n = s.unicode_len();
    let mut out = String::new();
    let mut i: usize = 0;
    proof {
        assert(s@.subrange(0, 0) =~= Seq::<char>::empty());
    }
    while i < n
        invariant
            i <= n,
            n == s@.len(),
            out@ == spec_escaped(s@.subrange(0, i as int)),
        decreases n - i,
    {
        let c = s.get_char(i);
        if c == '"' {
            out.append("\\\"");
            proof {
                reveal_strlit("\\\"");
                assert("\\\""@ =~= escape_char(c));
            }
        } else if c == '\\' {
            out.append("\\\\");
            proof {
                reveal_strlit("\\\\");
                assert("\\\\"@ =~= escape_char(c));
            }
        } else if c == '\n' {
            out.append("\\n");
            proof {
                reveal_strlit("\\n");
                assert("\\n"@ =~= escape_char(c));
            }
        } else if c == '\r' {
            out.append("\\r");
            proof {
                reveal_strlit("\\r");
                assert("\\r"@ =~= escape_char(c));
            }
        } else if c == '\t' {
            out.append("\\t");
            proof {
                reveal_strlit("\\t");
                assert("\\t"@ =~= escape_char(c));
            }
        } else {
            let piece = s.substring_char(i, i + 1);
            out.append(piece);
            proof {
                assert(piece@ =~= escape_char(c));
            }
        }
        proof {
            lemma_escaped_push(s@.subrange(0, i as int), c);
            assert(s@.subrange(0, i as int + 1) =~= s@.subrange(0, i as int).push(c));
        }
        i = i + 1;
    }
    proof {
        assert(s@.subrange(0, n as int) =~= s@);
    }
    out
}

/// The exact configuration text `to_toml` writes for the given record fields.
pub open spec fn spec_toml_text(debug: bool, provider: Provider, model: Seq<char>) -> Seq<char> {
    "debug = "@ + (if debug {
        "true"@
    } else {
        "false"@
    }) + "\nmodel = \""@ + spec_escaped(model) + "\"\n\n[provider]\ntype = \""@ + tag_of_provider(
        provider,
    ) + "\"\n"@
}

/// Whether configuration text loads: it parses, the three schema fields read
/// back, and the provider tag is in the closed set.
pub open spec fn spec_loads(text: Seq<char>) -> bool {
    &&& toml_parses(text)
    &&& toml_bool_at(text, "debug"@) is Some
    &&& toml_text_at(text, "model"@) is Some
    &&& (toml_text_at(text, "provider.type"@) matches Some(tag) && is_known_tag(tag))
}

impl Settings {
    /// Builds the record from its three raw fields; `Ok` exactly when the tag
    /// is in the closed set, and then the record carries the fields unchanged.
    pub fn from_fields(debug: bool, tag: &str, model: String) -> (r: Result<
        Settings,
        ConfigurationError,
    >)
        ensures
            (r is Ok) == is_known_tag(tag@),
            r matches Ok(s) ==> provider_of_tag(tag@) == Some(s.provider) && s.debug == debug
                && s.model == model,
            r matches Err(e) ==> (e matches ConfigurationError::UnknownProvider { tag: t } && t@
                == tag@),
    {
        match provider_from_tag(tag) {
            Ok(provider) => Ok(Settings { debug, provider, model }),
            Err(e) => Err(e),
        }
    }

    /// Writes the record as configuration text, exactly the schema the loader
    /// reads: the debug flag, the model, and the provider tag under
    /// `provider.type`. Quotes, backslashes, newlines, carriage returns and
    /// tabs in the model are escaped; other control characters are written
    /// verbatim and stand outside the round trip's support.
    pub fn to_toml(&self) -> (text: String)
        ensures
            text@ == spec_toml_text(self.debug, self.provider, self.model@),
    {
        let mut out: String = "debug = ".to_owned();
        out.append(if self.debug { "true" } else { "false" });
        out.append("\nmodel = \"");
        let escaped = escape_text(self.model.as_str());
        out.append(escaped.as_str());
        out.append("\"\n\n[provider]\ntype = \"");
        out.append(
            match self.provider {
                Provider::OpenAI => "OpenAI",
                Provider::Anthropic => "Anthropic",
                Provider::Azure => "Azure",
            },
        );
        out.append("\"\n");
        out
    }

    /// Loads the record from configuration text: `Ok` exactly when the text
    /// parses, the three schema fields read back, and the provider tag is in
    /// the closed set — and then the record carries exactly what the text
    /// holds at `debug`, `provider.type` and `model`. Each failure names its
    /// ground: `Syntax` exactly on text that does not parse, `Field` on the
    /// first required field that does not read back, `UnknownProvider` on a
    /// tag outside the closed set. The result is a function of the text
    /// alone.
    pub fn from_toml(text: &str) -> (r: Result<Settings, ConfigurationError>)
        ensures
            (r is Ok) == spec_loads(text@),
            r matches Ok(s) ==> Some(s.debug) == toml_bool_at(text@, "debug"@) && (toml_text_at(
                text@,
                "provider.type"@,
            ) matches Some(tag) && provider_of_tag(tag) == Some(s.provider)) && toml_text_at(
                text@,
                "model"@,
            ) == Some(s.model@),
            !toml_parses(text@) ==> (r matches Err(ConfigurationError::Syntax { message: _ })),
            r matches Err(e) ==> (match e {
                ConfigurationError::Syntax { message } => !toml_parses(text@) && message@
                    == toml_syntax_error(text@),
                ConfigurationError::Field { key, message } => toml_parses(text@) && ({
                    ||| (key@ == "debug"@ && toml_bool_at(text@, "debug"@) is None && message@
                        == toml_bool_error(text@, "debug"@))
                    ||| (key@ == "provider.type"@ && toml_bool_at(text@, "debug"@) is Some
                        && toml_text_at(text@, "provider.type"@) is None && message@
                        == toml_text_error(text@, "provider.type"@))
                    ||| (key@ == "model"@ && toml_bool_at(text@, "debug"@) is Some && toml_text_at(
                        text@,
                        "provider.type"@,
                    ) is Some && toml_text_at(text@, "model"@) is None && message@
                        == toml_text_error(text@, "model"@))
                }),
                ConfigurationError::UnknownProvider { tag } => toml_parses(text@) && toml_bool_at(
                    text@,
                    "debug"@,
                ) is Some && toml_text_at(text@, "provider.type"@) == Some(tag@) && toml_text_at(
                    text@,
                    "model"@,
                ) is Some && !is_known_tag(tag@),
            }),
    {
        if let Err(message) = check_toml_syntax(text) {
            return Err(ConfigurationError::Syntax { message });
        }
        let debug = match read_bool(text, "debug") {
            Ok(b) => b,
            Err(message) => {
                return Err(field_error("debug", message));
            },
        };
        let tag = match read_text(text, "provider.type") {
            Ok(t) => t,
            Err(message) => {
                return Err(field_error("provider.type", message));
            },
        };
        let model = match read_text(text, "model") {
            Ok(m) => m,
            Err(message) => {
                return Err(field_error("model", message));
            },
        };
        Settings::from_fields(debug, tag.as_str(), model)
    }
}

fn field_error(key: &str, message: String) -> (r: ConfigurationError)
    ensures
        r matches ConfigurationError::Field { key: k, message: m } && k@ == key@ && m == message,
{
    ConfigurationError::Field { key: key.to_owned(), message }
}

/// Whether the configuration parser accepts the text as TOML. The parse is a
/// function of the text alone.
pub uninterp spec fn toml_parses(text: Seq<char>) -> bool;

/// The parser's report for text it does not accept.
pub uninterp spec fn toml_syntax_error(text: Seq<char>) -> Seq<char>;

/// The bool at a key path of the parsed text: `Some` exactly when the text
/// parses, the key is present and its value converts to bool.
pub uninterp spec fn toml_bool_at(text: Seq<char>, key: Seq<char>) -> Option<bool>;

/// The parser's report when no bool reads back at the key path.
pub uninterp spec fn toml_bool_error(text: Seq<char>, key: Seq<char>) -> Seq<char>;

/// The string at a key path of the parsed text: `Some` exactly when the text
/// parses, the key is present and its value converts to a string.
pub uninterp spec fn toml_text_at(text: Seq<char>, key: Seq<char>) -> Option<Seq<char>>;

/// The parser's report when no string reads back at the key path.
pub uninterp spec fn toml_text_error(text: Seq<char>, key: Seq<char>) -> Seq<char>;

/// Relies on config::Config::builder, ConfigBuilder::add_source and
/// ConfigBuilder::build, with config::File::from_str and FileFormat::Toml:
/// whether the text is valid TOML, and the parser's report when it is not —
/// both functions of the text alone.
#[verifier::external_body]
fn check_toml_syntax(text: &str) -> (r: Result<(), String>)
    ensures
        (r is Ok) == toml_parses(text@),
        r matches Err(m) ==> m@ == toml_syntax_error(text@),
{
    match config::Config::builder().add_source(
        config::File::from_str(text, config::FileFormat::Toml),
    ).build() {
        Ok(_) => Ok(()),
        Err(e) => Err(format!("{e}")),
    }
}

/// Relies on config::Config::get_bool after the same TOML parse: the bool at
/// the key path, or the crate's report when the text does not parse, the key
/// is absent, or the value does not convert — all functions of the text and
/// key alone.
#[verifier::external_body]
fn read_bool(text: &str, key: &str) -> (r: Result<bool, String>)
    ensures
        (r is Ok) == (toml_bool_at(text@, key@) is Some),
        r matches Ok(b) ==> toml_bool_at(text@, key@) == Some(b),
        r matches Err(m) ==> m@ == toml_bool_error(text@, key@),
{
    config::Config::builder().add_source(config::File::from_str(text, config::FileFormat::Toml)).build().and_then(
        |c| c.get_bool(key),
    ).map_err(|e| format!("{e}"))
}

/// Relies on config::Config::get_string after the same TOML parse: the string
/// at the key path, or the crate's report when the text does not parse, the
/// key is absent, or the value does not convert — all functions of the text
/// and key alone.
#[verifier::external_body]
fn read_text(text: &str, key: &str) -> (r: Result<String, String>)
    ensures
        (r is Ok) == (toml_text_at(text@, key@) is Some),
        r matches Ok(s) ==> toml_text_at(text@, key@) == Some(s@),
        r matches Err(m) ==> m@ == toml_text_error(text@, key@),
{
    config::Config::builder().add_source(config::File::from_str(text, config::FileFormat::Toml)).build().and_then(
        |c| c.get_string(key),
    ).map_err(|e| format!("{e}"))
}

} // verus!
