//! The command-line options of the components: how each component declares
//! its options and how it reads their values once the command line has
//! been parsed.

use vstd::prelude::*;
use crate::base::{Error, ErrorView};
use cliparser::types::{
    Argument, ArgumentHelp, ArgumentOccurrence, ArgumentValueType, CliParsed, CliSpec,
};

verus! {

/// The name under which the size of the read buffers is found.
pub const BUFFER_SIZE: &'static str = "BufferSize";

/// The long key of the buffer size.
pub const BUFFER_SIZE_KEY: &'static str = "--buffer-size";

/// The short key of the buffer size.
pub const BUFFER_SIZE_SHORT_KEY: &'static str = "-b";

/// The help text of the buffer size.
pub const BUFFER_SIZE_HELP: &'static str = "Maximum buffer size";

/// The specification of a command line, as `cliparser` holds it.
#[verifier::external_type_specification]
#[verifier::external_body]
pub struct ExCliSpec(CliSpec);

/// A parsed command line, as `cliparser` hands it out.
#[verifier::external_type_specification]
#[verifier::external_body]
pub struct ExCliParsed(CliParsed);

/// How often an option may occur on a command line.
#[derive(Clone, Copy, Debug, PartialEq, Eq, Structural)]
pub enum Occurrence {
    Single,
    Multiple,
}

/// The values that an option takes.
#[derive(Clone, Copy, Debug, PartialEq, Eq, Structural)]
pub enum ValueType {
    /// The option takes no value: it is a flag.
    Flag,
    /// The option takes one value.
    Single,
    /// The option takes one value or more.
    Multiple,
}

/// The declaration of one option.
#[derive(Clone, Debug, PartialEq, Eq)]
pub struct OptionSpec {
    /// The name under which the parsed values are found.
    pub name: String,
    /// The keys that select the option on the command line.
    pub key: Vec<String>,
    pub occurrence: Occurrence,
    pub value_type: ValueType,
    /// The value of the option where the command line has none.
    pub default_value: Option<String>,
    pub help: String,
}

/// What the contracts see of an [`OptionSpec`].
pub struct OptionSpecView {
    pub name: Seq<char>,
    pub key: Seq<Seq<char>>,
    pub occurrence: Occurrence,
    pub value_type: ValueType,
    pub default_value: Option<Seq<char>>,
    pub help: Seq<char>,
}

impl View for OptionSpec {
    type V = OptionSpecView;

    open spec fn view(&self) -> OptionSpecView {
        OptionSpecView {
            name: self.name@,
            key: self.key.deep_view(),
            occurrence: self.occurrence,
            value_type: self.value_type,
            default_value: self.default_value.deep_view(),
            help: self.help@,
        }
    }
}

/// The options that a command-line specification declares, in the order in
/// which they were added: what the field `arguments` of a `CliSpec` holds,
/// each `Argument` with its help taken as plain text.
pub uninterp spec fn declared_options(spec: CliSpec) -> Seq<OptionSpecView>;

/// The values that a parsed command line holds, by option name: what the
/// field `argument_values` of a `CliParsed` holds. For each option that
/// takes values and was given or has a default, these are the values of
/// all its occurrences.
pub uninterp spec fn parsed_values(parsed: CliParsed) -> Map<Seq<char>, Seq<Seq<char>>>;

/// The names of the options that were found on a parsed command line:
/// what the field `arguments` of a `CliParsed` holds.
pub uninterp spec fn parsed_names(parsed: CliParsed) -> Set<Seq<char>>;

/// Calls `CliSpec::add_argument` with the `Argument` that `option`
/// describes, its help given as plain text. Not proved, but taken from the
/// source of `cliparser`: the call appends the argument, so that the
/// result declares the options of `spec` and then `option`.
#[verifier::external_body]
pub(crate) fn add_argument(spec: CliSpec, option: OptionSpec) -> (extended: CliSpec)
    ensures
        declared_options(extended) == declared_options(spec).push(option@),
{
    spec.add_argument(Argument {
        name: option.name,
        key: option.key,
        argument_occurrence: match option.occurrence {
            Occurrence::Single => ArgumentOccurrence::Single,
            Occurrence::Multiple => ArgumentOccurrence::Multiple,
        },
        value_type: match option.value_type {
            ValueType::Flag => ArgumentValueType::None,
            ValueType::Single => ArgumentValueType::Single,
            ValueType::Multiple => ArgumentValueType::Multiple,
        },
        default_value: option.default_value,
        help: Some(ArgumentHelp::Text(option.help)),
    })
}

/// Calls `HashMap::get` on the field `argument_values` of a parsed command
/// line and copies what it finds. Not proved, but taken from the
/// documentation of `HashMap`: the result is the list of values held under
/// `name`, or `None` where the map has no such key.
#[verifier::external_body]
pub(crate) fn values_of(parsed: &CliParsed, name: &str) -> (values: Option<Vec<String>>)
    ensures
        match values {
            Some(list) => parsed_values(*parsed).contains_key(name@) && list.deep_view()
                == parsed_values(*parsed)[name@],
            None => !parsed_values(*parsed).contains_key(name@),
        },
{
    parsed.argument_values.get(name).cloned()
}

/// Calls `HashSet::contains` on the field `arguments` of a parsed command
/// line. Not proved, but taken from the documentation of `HashSet`: the
/// result says whether `name` is in the set.
#[verifier::external_body]
pub(crate) fn has_argument(parsed: &CliParsed, name: &str) -> (found: bool)
    ensures
        found == parsed_names(*parsed).contains(name@),
{
    parsed.arguments.contains(name)
}

/// The first of the values held under `name`, if there is one.
pub open spec fn first_value(values: Map<Seq<char>, Seq<Seq<char>>>, name: Seq<char>) -> Option<
    Seq<char>,
> {
    if values.contains_key(name) && values[name].len() > 0 {
        Some(values[name][0])
    } else {
        None
    }
}

/// The first value that a parsed command line holds under `name`.
pub fn get_first(parsed: &CliParsed, name: &str) -> (value: Option<String>)
    ensures
        value.deep_view() == first_value(parsed_values(*parsed), name@),
{
    match values_of(parsed, name) {
        Some(list) => {
            if list.len() > 0 {
                assert(list.deep_view()[0] == list@[0]@);
                Some(list[0].clone())
            } else {
                None
            }
        },
        None => None,
    }
}

/// Whether `c` is a decimal digit.
pub open spec fn is_digit(c: char) -> bool {
    '0' <= c <= '9'
}

/// The number that a decimal digit stands for.
pub open spec fn digit_value(c: char) -> nat {
    (c as nat - '0' as nat) as nat
}

/// The number that a sequence of decimal digits stands for.
pub open spec fn decimal_value(digits: Seq<char>) -> nat
    decreases digits.len(),
{
    if digits.len() == 0 {
        0
    } else {
        decimal_value(digits.drop_last()) * 10 + digit_value(digits.last())
    }
}

/// Whether `text` holds decimal digits only.
pub open spec fn all_digits(text: Seq<char>) -> bool {
    forall|i: int| 0 <= i < text.len() ==> is_digit(#[trigger] text[i])
}

/// The digits of an unsigned decimal numeral: the text itself, or the text
/// after one leading plus sign, if that is one digit or more and nothing
/// else.
pub open spec fn numeral_digits(text: Seq<char>) -> Option<Seq<char>> {
    let digits = if text.len() > 0 && text[0] == '+' {
        text.skip(1)
    } else {
        text
    };
    if digits.len() > 0 && all_digits(digits) {
        Some(digits)
    } else {
        None
    }
}

/// The number that `text` stands for, if it is an unsigned decimal numeral
/// of a number that is at most `max`.
pub open spec fn parse_model(text: Seq<char>, max: nat) -> Option<nat> {
    match numeral_digits(text) {
        Some(digits) => if decimal_value(digits) <= max {
            Some(decimal_value(digits))
        } else {
            None
        },
        None => None,
    }
}

/// A numeral stands for at least as much as any of its prefixes.
pub proof fn decimal_value_grows(digits: Seq<char>, upto: int)
    requires
        0 <= upto <= digits.len(),
    ensures
        decimal_value(digits.take(upto)) <= decimal_value(digits),
    decreases digits.len() - upto,
{
    if upto == digits.len() {
        assert(digits.take(upto) =~= digits);
    } else {
        assert(digits.drop_last().take(upto) =~= digits.take(upto));
        decimal_value_grows(digits.drop_last(), upto);
    }
}

/// Reads an unsigned decimal numeral: an optional plus sign and then
/// digits only, at least one. Returns the number, or `None` where `text` is
/// no such numeral or the number is greater than `max`.
pub fn parse_unsigned(text: &str, max: u64) -> (number: Option<u64>)
    ensures
        match number {
            Some(n) => parse_model(text@, max as nat) == Some(n as nat),
            None => parse_model(text@, max as nat) is None,
        },
{
    let length = text.unicode_len();
    if length == 0 {
        return None;
    }
    let start: usize = if text.get_char(0) == '+' {
        1
    } else {
        0
    };
    let ghost digits = text@.skip(start as int);
    proof {
        assert(text@.skip(0) =~= text@);
    }
    if start == length {
        return None;
    }
    let mut value: u64 = 0;
    let mut i: usize = start;
    proof {
        assert(digits.take(0) =~= Seq::<char>::empty());
    }
    while i < length
        invariant
            length == text@.len(),
            start <= i <= length,
            start < length,
            start == 1 <==> text@[0] == '+',
            start == 0 || start == 1,
            digits == text@.skip(start as int),
            start == 0 ==> digits == text@,
            all_digits(digits.take(i - start)),
            value == decimal_value(digits.take(i - start)),
            value <= max,
        decreases length - i,
    {
        let c = text.get_char(i);
        proof {
            assert(digits[i - start] == c);
        }
        if c < '0' || c > '9' {
            proof {
                assert(!is_digit(digits[i - start]));
            }
            return None;
        }
        let d: u64 = (c as u32 - '0' as u32) as u64;
        proof {
            let longer = digits.take(i - start + 1);
            assert(longer.drop_last() =~= digits.take(i - start));
            assert(longer.last() == c);
            assert(decimal_value(longer) == value * 10 + d);
            decimal_value_grows(digits, i - start + 1);
            assert forall|k: int| 0 <= k < longer.len() implies is_digit(#[trigger] longer[k]) by {
                if k < i - start {
                    assert(digits.take(i - start)[k] == longer[k]);
                }
            }
        }
        if d > max || value > (max - d) / 10 {
            proof {
                if d <= max {
                    assert(value * 10 + d > max) by (nonlinear_arith)
                        requires
                            value > (max - d) / 10,
                            d <= max,
                    ;
                }
                if all_digits(digits) {
                    assert(decimal_value(digits) > max);
                }
            }
            return None;
        }
        assert(value * 10 + d <= max) by (nonlinear_arith)
            requires
                value <= (max - d) / 10,
                d <= max,
        ;
        value = value * 10 + d;
        i = i + 1;
    }
    proof {
        assert(digits.take(length - start) =~= digits);
    }
    Some(value)
}

/// Reads a port number.
pub fn parse_port(text: &str) -> (port: Option<u16>)
    ensures
        match port {
            Some(n) => parse_model(text@, u16::MAX as nat) == Some(n as nat),
            None => parse_model(text@, u16::MAX as nat) is None,
        },
{
    match parse_unsigned(text, 0xffff) {
        Some(n) => Some(n as u16),
        None => None,
    }
}

/// Reads a size.
pub fn parse_size(text: &str) -> (size: Option<usize>)
    ensures
        match size {
            Some(n) => parse_model(text@, usize::MAX as nat) == Some(n as nat),
            None => parse_model(text@, usize::MAX as nat) is None,
        },
{
    match parse_unsigned(text, usize::MAX as u64) {
        Some(n) => Some(n as usize),
        None => None,
    }
}

/// The declaration of a flag: an option that occurs once and takes no
/// value.
pub open spec fn flag_model(name: &str, key: &str, help: &str) -> OptionSpecView {
    OptionSpecView {
        name: name@,
        key: seq![key@],
        occurrence: Occurrence::Single,
        value_type: ValueType::Flag,
        default_value: None,
        help: help@,
    }
}

/// The declaration of an option that occurs once, takes one value and has
/// a default.
pub open spec fn setting_model(
    name: &str,
    key: &str,
    default_value: &str,
    help: &str,
) -> OptionSpecView {
    OptionSpecView {
        name: name@,
        key: seq![key@],
        occurrence: Occurrence::Single,
        value_type: ValueType::Single,
        default_value: Some(default_value@),
        help: help@,
    }
}

/// Declares a flag.
pub fn flag(name: &str, key: &str, help: &str) -> (option: OptionSpec)
    ensures
        option@ == flag_model(name, key, help),
{
    let mut keys: Vec<String> = Vec::new();
    keys.push(key.to_owned());
    let option = OptionSpec {
        name: name.to_owned(),
        key: keys,
        occurrence: Occurrence::Single,
        value_type: ValueType::Flag,
        default_value: None,
        help: help.to_owned(),
    };
    assert(option.key.deep_view() =~= seq![key@]);
    option
}

/// Declares an option that occurs once, takes one value and has a default.
pub fn setting(name: &str, key: &str, default_value: &str, help: &str) -> (option: OptionSpec)
    ensures
        option@ == setting_model(name, key, default_value, help),
{
    let mut keys: Vec<String> = Vec::new();
    keys.push(key.to_owned());
    let option = OptionSpec {
        name: name.to_owned(),
        key: keys,
        occurrence: Occurrence::Single,
        value_type: ValueType::Single,
        default_value: Some(default_value.to_owned()),
        help: help.to_owned(),
    };
    assert(option.key.deep_view() =~= seq![key@]);
    option
}

/// The size that a component is configured with: the buffer size must be
/// given and must be a number.
pub open spec fn size_model(text: Option<Seq<char>>) -> Result<usize, ErrorView> {
    match text {
        None => Err(ErrorView::RequireOption(BUFFER_SIZE@)),
        Some(digits) => match parse_model(digits, usize::MAX as nat) {
            Some(n) => Ok(n as usize),
            None => Err(ErrorView::ParseIntError),
        },
    }
}

/// The text of a required option, or the error that names the option.
pub fn require(value: Option<String>, name: &str) -> (text: Result<String, Error>)
    ensures
        match text {
            Ok(t) => value.deep_view() == Some(t@),
            Err(e) => value is None && e@ == ErrorView::RequireOption(name@),
        },
{
    match value {
        Some(text) => Ok(text),
        None => Err(Error::RequireOption(name.to_owned())),
    }
}

/// The port that a text stands for, or `Error::ParseIntError`.
pub fn port_of(text: &str) -> (port: Result<u16, Error>)
    ensures
        match port {
            Ok(n) => parse_model(text@, u16::MAX as nat) == Some(n as nat),
            Err(e) => parse_model(text@, u16::MAX as nat) is None && e@
                == ErrorView::ParseIntError,
        },
{
    match parse_port(text) {
        Some(n) => Ok(n),
        None => Err(Error::ParseIntError),
    }
}

/// The size that a text stands for, or `Error::ParseIntError`.
pub fn size_of(text: &str) -> (size: Result<usize, Error>)
    ensures
        match size {
            Ok(n) => parse_model(text@, usize::MAX as nat) == Some(n as nat),
            Err(e) => parse_model(text@, usize::MAX as nat) is None && e@
                == ErrorView::ParseIntError,
        },
{
    match parse_size(text) {
        Some(n) => Ok(n),
        None => Err(Error::ParseIntError),
    }
}

/// The address, the port and the buffer size that a component with an
/// endpoint is configured with. The three options are required, in this
/// order: the first one that is missing is the error. The port and the
/// buffer size must be numbers, of 16 bits and of the size of a pointer.
pub open spec fn endpoint_model(
    address: Option<Seq<char>>,
    port: Option<Seq<char>>,
    buffer_size: Option<Seq<char>>,
    address_name: Seq<char>,
    port_name: Seq<char>,
) -> Result<(Seq<char>, u16, usize), ErrorView> {
    if address is None {
        Err(ErrorView::RequireOption(address_name))
    } else if port is None {
        Err(ErrorView::RequireOption(port_name))
    } else if buffer_size is None {
        Err(ErrorView::RequireOption(BUFFER_SIZE@))
    } else if parse_model(port->0, u16::MAX as nat) is None {
        Err(ErrorView::ParseIntError)
    } else if parse_model(buffer_size->0, usize::MAX as nat) is None {
        Err(ErrorView::ParseIntError)
    } else {
        Ok(
            (
                address->0,
                parse_model(port->0, u16::MAX as nat)->0 as u16,
                parse_model(buffer_size->0, usize::MAX as nat)->0 as usize,
            ),
        )
    }
}

/// Reads the address, the port and the buffer size of a component with an
/// endpoint from the values of its options, where they are given.
pub fn endpoint_settings(
    address: Option<String>,
    port: Option<String>,
    buffer_size: Option<String>,
    address_name: &str,
    port_name: &str,
) -> (settings: Result<(String, u16, usize), Error>)
    ensures
        match settings {
            Ok((a, p, b)) => endpoint_model(
                address.deep_view(),
                port.deep_view(),
                buffer_size.deep_view(),
                address_name@,
                port_name@,
            ) == Ok::<(Seq<char>, u16, usize), ErrorView>((a@, p, b)),
            Err(e) => endpoint_model(
                address.deep_view(),
                port.deep_view(),
                buffer_size.deep_view(),
                address_name@,
                port_name@,
            ) == Err::<(Seq<char>, u16, usize), ErrorView>(e@),
        },
{
    let address = match require(address, address_name) {
        Ok(text) => text,
        Err(e) => {
            return Err(e);
        },
    };
    let port = match require(port, port_name) {
        Ok(text) => text,
        Err(e) => {
            return Err(e);
        },
    };
    let buffer_size = match require(buffer_size, BUFFER_SIZE) {
        Ok(text) => text,
        Err(e) => {
            return Err(e);
        },
    };
    let port = match port_of(port.as_str()) {
        Ok(n) => n,
        Err(e) => {
            return Err(e);
        },
    };
    let buffer_size = match size_of(buffer_size.as_str()) {
        Ok(n) => n,
        Err(e) => {
            return Err(e);
        },
    };
    Ok((address, port, buffer_size))
}

/// The declaration of an option with a long and a short key.
pub open spec fn option_model(
    name: &str,
    long_key: &str,
    short_key: &str,
    occurrence: Occurrence,
    value_type: ValueType,
    default_value: Option<Seq<char>>,
    help: &str,
) -> OptionSpecView {
    OptionSpecView {
        name: name@,
        key: seq![long_key@, short_key@],
        occurrence,
        value_type,
        default_value,
        help: help@,
    }
}

/// Declares an option with a long and a short key.
pub fn option(
    name: &str,
    long_key: &str,
    short_key: &str,
    occurrence: Occurrence,
    value_type: ValueType,
    default_value: Option<String>,
    help: &str,
) -> (declared: OptionSpec)
    ensures
        declared@ == option_model(
            name,
            long_key,
            short_key,
            occurrence,
            value_type,
            default_value.deep_view(),
            help,
        ),
{
    let mut keys: Vec<String> = Vec::new();
    keys.push(long_key.to_owned());
    keys.push(short_key.to_owned());
    let declared = OptionSpec {
        name: name.to_owned(),
        key: keys,
        occurrence,
        value_type,
        default_value,
        help: help.to_owned(),
    };
    assert(declared.key.deep_view() =~= seq![long_key@, short_key@]);
    declared
}

/// The number that `text` stands for, if it is a signed decimal numeral of
/// a number of 32 bits: an optional sign and then digits only, at least
/// one.
pub open spec fn signed_model(text: Seq<char>) -> Option<int> {
    if text.len() > 0 && text[0] == '-' {
        let digits = text.skip(1);
        if digits.len() > 0 && all_digits(digits) && decimal_value(digits) <= 0x8000_0000 {
            Some(-(decimal_value(digits) as int))
        } else {
            None
        }
    } else {
        match parse_model(text, 0x7fff_ffff) {
            Some(n) => Some(n as int),
            None => None,
        }
    }
}

/// Reads a signed decimal numeral of a number of 32 bits.
pub fn parse_signed(text: &str) -> (number: Option<i32>)
    ensures
        match number {
            Some(n) => signed_model(text@) == Some(n as int),
            None => signed_model(text@) is None,
        },
{
    let length = text.unicode_len();
    if length > 0 && text.get_char(0) == '-' {
        if length == 1 {
            return None;
        }
        let digits = text.substring_char(1, length);
        proof {
            assert(digits@ =~= text@.skip(1));
            assert(digits@.skip(0) =~= digits@);
        }
        if digits.get_char(0) == '+' {
            proof {
                assert(!is_digit(digits@[0]));
            }
            return None;
        }
        match parse_unsigned(digits, 0x8000_0000) {
            Some(n) => {
                let value: i64 = 0 - (n as i64);
                Some(value as i32)
            },
            None => None,
        }
    } else {
        match parse_unsigned(text, 0x7fff_ffff) {
            Some(n) => Some(n as i32),
            None => None,
        }
    }
}

} // verus!
