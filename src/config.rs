//! Resolving the name of the aggregate flag from the tokens of the
//! transformation's optional configuration, `aggregate_flag_name = "<name>"`.

use vstd::prelude::*;
use crate::text::same_text;

verus! {

/// The aggregate flag's name when no configuration is given.
pub const CLOWNCOPTERIZE_FLAG: &'static str = "clowncopterize";

/// The one configuration key that is recognized.
pub const CONFIG_KEY: &'static str = "aggregate_flag_name";

/// One token of the configuration.
#[derive(Clone, Debug, PartialEq, Eq)]
pub enum ConfigToken {
    /// An identifier, as written.
    Ident(String),
    /// A punctuation character.
    Punct(char),
    /// A string literal, by its value (escapes resolved).
    Str(String),
    /// Any other token, as written.
    Other(String),
}

/// Why a configuration was refused.
#[derive(Clone, Copy, Debug, PartialEq, Eq, Structural)]
pub enum ConfigError {
    /// The configuration does not start with an identifier.
    ExpectedKey,
    /// The key is not the recognized one.
    UnexpectedKey,
    /// The key is not followed by `=`.
    ExpectedEquals,
    /// The `=` is not followed by a string literal.
    ExpectedString,
    /// Tokens follow the string literal.
    UnexpectedToken,
    /// The name, hyphens turned to underscores, is not a field identifier.
    InvalidName,
}

/// The resolved configuration: the identifier of the aggregate flag.
#[derive(Debug)]
pub struct Clowncopterize {
    pub clowncopterizer: String,
}

/// Hyphens become underscores; every other character stays.
pub open spec fn normalized(s: Seq<char>) -> Seq<char> {
    s.map_values(|c: char| if c == '-' { '_' } else { c })
}

/// Whether the text is exactly one identifier that is not a keyword.
pub uninterp spec fn is_identifier(s: Seq<char>) -> bool;

/// The aggregate flag's name that a configuration resolves to, or why it is
/// refused.
pub open spec fn config_spec(t: Seq<ConfigToken>) -> Result<Seq<char>, ConfigError> {
    if t.len() == 0 {
        Ok(CLOWNCOPTERIZE_FLAG@)
    } else if !(t[0] is Ident) {
        Err(ConfigError::ExpectedKey)
    } else if t[0]->Ident_0@ != CONFIG_KEY@ {
        Err(ConfigError::UnexpectedKey)
    } else if t.len() < 2 || t[1] != ConfigToken::Punct('=') {
        Err(ConfigError::ExpectedEquals)
    } else if t.len() < 3 || !(t[2] is Str) {
        Err(ConfigError::ExpectedString)
    } else if t.len() > 3 {
        Err(ConfigError::UnexpectedToken)
    } else if !is_identifier(normalized(t[2]->Str_0@)) {
        Err(ConfigError::InvalidName)
    } else {
        Ok(normalized(t[2]->Str_0@))
    }
}

/// Relies on `str::replace` with pattern `'-'` and replacement `"_"`: every
/// hyphen becomes an underscore and every other character is kept in order.
#[verifier::external_body]
fn hyphens_to_underscores(s: &str) -> (r: String)
    ensures
        r@ == normalized(s@),
{
    s.replace('-', "_")
}

/// Relies on `syn::parse_str::<syn::Ident>`: it succeeds exactly when the
/// whole text is one identifier that is not a keyword.
#[verifier::external_body]
fn parses_as_identifier(s: &str) -> (r: bool)
    ensures
        r == is_identifier(s@),
{
    syn::parse_str::<syn::Ident>(s).is_ok()
}

impl Default for Clowncopterize {
    fn default() -> (r: Self)
        ensures
            r.clowncopterizer@ == CLOWNCOPTERIZE_FLAG@,
    {
        Clowncopterize { clowncopterizer: String::from_str(CLOWNCOPTERIZE_FLAG) }
    }
}

impl Clowncopterize {
    /// Resolves the configuration tokens: no tokens select the default name;
    /// otherwise they must read `aggregate_flag_name = "<name>"`, and the
    /// name, hyphens turned to underscores, must be an identifier.
    pub fn parse(tokens: &Vec<ConfigToken>) -> (r: Result<Self, ConfigError>)
        ensures
            match config_spec(tokens@) {
                Ok(name) => r matches Ok(c) && c.clowncopterizer@ == name,
                Err(e) => r == Err::<Self, ConfigError>(e),
            },
    {
        let n = tokens.len();
        if n == 0 {
            return Ok(Clowncopterize::default());
        }
        match &tokens[0] {
            ConfigToken::Ident(key) => {
                if !same_text(key.as_str(), CONFIG_KEY) {
                    return Err(ConfigError::UnexpectedKey);
                }
            },
            _ => {
                return Err(ConfigError::ExpectedKey);
            },
        }
        if n < 2 {
            return Err(ConfigError::ExpectedEquals);
        }
        match &tokens[1] {
            ConfigToken::Punct(c) => {
                if *c != '=' {
                    return Err(ConfigError::ExpectedEquals);
                }
            },
            _ => {
                return Err(ConfigError::ExpectedEquals);
            },
        }
        if n < 3 {
            return Err(ConfigError::ExpectedString);
        }
        match &tokens[2] {
            ConfigToken::Str(value) => {
                if n > 3 {
                    return Err(ConfigError::UnexpectedToken);
                }
                let name = hyphens_to_underscores(value.as_str());
                if !parses_as_identifier(name.as_str()) {
                    return Err(ConfigError::InvalidName);
                }
                Ok(Clowncopterize { clowncopterizer: name })
            },
            _ => Err(ConfigError::ExpectedString),
        }
    }
}

} // verus!
