//! Settings as key and value texts, and the reading of numbers from them.

use crate::error::{ValidatorError, ValidatorErrorView};
use vstd::prelude::*;
use vstd::string::StringExecFns;

verus! {

/// The unsigned number that a text stands for in a settings source, or
/// `None` where it stands for none.
pub uninterp spec fn text_as_unsigned(text: Seq<char>) -> Option<u64>;

/// The signed number that a text stands for in a settings source, or `None`
/// where it stands for none.
pub uninterp spec fn text_as_signed(text: Seq<char>) -> Option<i64>;

/// Reads a text as an unsigned number with `config::Value::into_uint`, on
/// the value that `config::Value::from` makes of the text: the words for
/// yes and no as one and nought, and otherwise what the text parses to as a
/// `u64`. The contract names the outcome.
#[verifier::external_body]
fn read_unsigned(text: &str) -> (value: Option<u64>)
    ensures
        value == text_as_unsigned(text@),
{
    config::Value::from(text).into_uint().ok()
}

/// Reads a text as a signed number with `config::Value::into_int`, on the
/// value that `config::Value::from` makes of the text: the words for yes
/// and no as one and nought, and otherwise what the text parses to as an
/// `i64`. The contract names the outcome.
#[verifier::external_body]
fn read_signed(text: &str) -> (value: Option<i64>)
    ensures
        value == text_as_signed(text@),
{
    config::Value::from(text).into_int().ok()
}

/// One setting: a key and the text given for it.
#[derive(Debug, Clone)]
pub struct Setting {
    pub key: String,
    pub value: String,
}

/// The text given for `key`. Where the key is given more than once the last
/// one counts, so that a later source overrides an earlier one.
pub open spec fn setting_of(settings: Seq<Setting>, key: Seq<char>) -> Option<Seq<char>>
    decreases settings.len(),
{
    if settings.len() == 0 {
        None
    } else if settings.last().key@ == key {
        Some(settings.last().value@)
    } else {
        setting_of(settings.drop_last(), key)
    }
}

/// What is wrong with a setting.
pub enum SettingFault {
    /// A setting that has no default is not given.
    Missing(Seq<char>),
    /// The text given is no number, or a number out of the field's range.
    Invalid(Seq<char>),
}

impl SettingFault {
    /// The words that report the fault.
    pub open spec fn message(self) -> Seq<char> {
        match self {
            SettingFault::Missing(key) => "missing field `"@ + key + "`"@,
            SettingFault::Invalid(key) => "invalid value for `"@ + key + "`"@,
        }
    }

    /// The fault as the validator reports it.
    pub open spec fn error(self) -> ValidatorErrorView {
        ValidatorErrorView::ConfigError(self.message())
    }
}

/// The text of a setting that has no default.
pub open spec fn required_text_of(settings: Seq<Setting>, key: Seq<char>) -> Result<
    Seq<char>,
    SettingFault,
> {
    match setting_of(settings, key) {
        Some(text) => Ok(text),
        None => Err(SettingFault::Missing(key)),
    }
}

/// The text of a setting, or its default.
pub open spec fn text_or_of(settings: Seq<Setting>, key: Seq<char>, default: Seq<char>) -> Seq<
    char,
> {
    match setting_of(settings, key) {
        Some(text) => text,
        None => default,
    }
}

/// The unsigned number of a field, from what reading its text gave: a
/// text that stands for no number, or for one above `max`, is a fault.
pub open spec fn unsigned_from_of(parsed: Option<u64>, key: Seq<char>, max: u64) -> Result<
    u64,
    SettingFault,
> {
    match parsed {
        Some(value) => if value <= max {
            Ok(value)
        } else {
            Err(SettingFault::Invalid(key))
        },
        None => Err(SettingFault::Invalid(key)),
    }
}

/// The signed number of a field, from what reading its text gave: a text
/// that stands for no number is a fault.
pub open spec fn signed_from_of(parsed: Option<i64>, key: Seq<char>) -> Result<i64, SettingFault> {
    match parsed {
        Some(value) => Ok(value),
        None => Err(SettingFault::Invalid(key)),
    }
}

/// The unsigned number of a setting, up to `max`, or its default where the
/// setting is not given.
pub open spec fn unsigned_or_of(
    settings: Seq<Setting>,
    key: Seq<char>,
    default: u64,
    max: u64,
) -> Result<u64, SettingFault> {
    match setting_of(settings, key) {
        None => Ok(default),
        Some(text) => unsigned_from_of(text_as_unsigned(text), key, max),
    }
}

/// The signed number of a setting, or its default where the setting is not
/// given.
pub open spec fn signed_or_of(settings: Seq<Setting>, key: Seq<char>, default: i64) -> Result<
    i64,
    SettingFault,
> {
    match setting_of(settings, key) {
        None => Ok(default),
        Some(text) => signed_from_of(text_as_signed(text), key),
    }
}

/// An outcome is what was expected: the same value, or the report of the
/// same fault.
pub open spec fn reports<T>(
    outcome: Result<T, ValidatorError>,
    expected: Result<T, SettingFault>,
) -> bool {
    match outcome {
        Ok(value) => expected == Ok::<T, SettingFault>(value),
        Err(error) => expected is Err && error@ == expected->Err_0.error(),
    }
}

/// The text given for `key`, the last where it is given more than once.
pub fn setting(settings: &Vec<Setting>, key: &str) -> (found: Option<String>)
    ensures
        match found {
            Some(text) => setting_of(settings@, key@) == Some(text@),
            None => setting_of(settings@, key@) is None,
        },
{
    let wanted = key.to_owned();
    let mut i: usize = settings.len();
    proof {
        assert(settings@.take(i as int) =~= settings@);
    }
    while i > 0
        invariant
            i <= settings.len(),
            wanted@ == key@,
            setting_of(settings@, key@) == setting_of(settings@.take(i as int), key@),
        decreases i,
    {
        i = i - 1;
        proof {
            let upto = settings@.take(i + 1);
            assert(upto.last() == settings@[i as int]);
            assert(upto.drop_last() =~= settings@.take(i as int));
        }
        if settings[i].key == wanted {
            return Some(settings[i].value.clone());
        }
    }
    None
}

/// The report of a setting that is not given.
fn missing(key: &str) -> (error: ValidatorError)
    ensures
        error@ == SettingFault::Missing(key@).error(),
{
    ValidatorError::ConfigError("missing field `".to_owned().concat(key).concat("`"))
}

/// The report of a setting that cannot be read.
fn invalid(key: &str) -> (error: ValidatorError)
    ensures
        error@ == SettingFault::Invalid(key@).error(),
{
    ValidatorError::ConfigError("invalid value for `".to_owned().concat(key).concat("`"))
}

/// The text of a setting that has no default.
pub fn required_text(settings: &Vec<Setting>, key: &str) -> (outcome: Result<
    String,
    ValidatorError,
>)
    ensures
        match outcome {
            Ok(text) => required_text_of(settings@, key@) == Ok::<Seq<char>, SettingFault>(text@),
            Err(error) => required_text_of(settings@, key@) is Err && error@ == required_text_of(
                settings@,
                key@,
            )->Err_0.error(),
        },
{
    match setting(settings, key) {
        Some(text) => Ok(text),
        None => Err(missing(key)),
    }
}

/// The text of a setting, or its default.
pub fn text_or(settings: &Vec<Setting>, key: &str, default: &str) -> (text: String)
    ensures
        text@ == text_or_of(settings@, key@, default@),
{
    match setting(settings, key) {
        Some(text) => text,
        None => default.to_owned(),
    }
}

/// The unsigned number of a field, from what reading its text gave.
pub fn unsigned_from(parsed: Option<u64>, key: &str, max: u64) -> (outcome: Result<
    u64,
    ValidatorError,
>)
    ensures
        reports(outcome, unsigned_from_of(parsed, key@, max)),
{
    match parsed {
        Some(value) => if value <= max {
            Ok(value)
        } else {
            Err(invalid(key))
        },
        None => Err(invalid(key)),
    }
}

/// The signed number of a field, from what reading its text gave.
pub fn signed_from(parsed: Option<i64>, key: &str) -> (outcome: Result<i64, ValidatorError>)
    ensures
        reports(outcome, signed_from_of(parsed, key@)),
{
    match parsed {
        Some(value) => Ok(value),
        None => Err(invalid(key)),
    }
}

/// The unsigned number of a setting, up to `max`, or its default.
pub fn unsigned_or(settings: &Vec<Setting>, key: &str, default: u64, max: u64) -> (outcome: Result<
    u64,
    ValidatorError,
>)
    ensures
        reports(outcome, unsigned_or_of(settings@, key@, default, max)),
{
    match setting(settings, key) {
        None => Ok(default),
        Some(text) => unsigned_from(read_unsigned(text.as_str()), key, max),
    }
}

/// The signed number of a setting, or its default.
pub fn signed_or(settings: &Vec<Setting>, key: &str, default: i64) -> (outcome: Result<
    i64,
    ValidatorError,
>)
    ensures
        reports(outcome, signed_or_of(settings@, key@, default)),
{
    match setting(settings, key) {
        None => Ok(default),
        Some(text) => signed_from(read_signed(text.as_str()), key),
    }
}

} // verus!
