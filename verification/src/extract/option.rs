//! Extracting options from application command data.

use vstd::prelude::*;

use crate::model::{CommandDataOption, CommandOptionType, CommandOptionValue};
use crate::text::{lemma_split_on_last_sep, lemma_split_on_len, lemma_split_on_sep_free};
use crate::text::{sep_free_range, split_on, str_eq};

verus! {

/// The value of the first option of `options` named `name`, or `None` when
/// no option matches.
pub open spec fn spec_find_option(
    options: Seq<CommandDataOption>,
    name: Seq<char>,
) -> Option<CommandOptionValue>
    decreases options.len(),
{
    if options.len() == 0 {
        None
    } else if options[0].name@ == name {
        Some(options[0].value)
    } else {
        spec_find_option(options.drop_first(), name)
    }
}

/// The value `option` resolves to for a parsed option name: the wrapped
/// options of a subcommand group or subcommand are searched further, and any
/// other value fails the lookup.
pub open spec fn spec_option_value(
    options: Seq<CommandDataOption>,
    name: Seq<char>,
) -> Option<CommandOptionValue> {
    let segments = split_on(name, '/');
    if segments.len() >= 3 {
        match spec_find_option(options, segments[segments.len() - 3]) {
            Some(group_value) => match group_value {
                CommandOptionValue::SubCommandGroup(group_options) => {
                    match spec_find_option(group_options@, segments[segments.len() - 2]) {
                        Some(subcommand_value) => match subcommand_value {
                            CommandOptionValue::SubCommand(subcommand_options) => spec_find_option(
                                subcommand_options@,
                                segments.last(),
                            ),
                            _ => None,
                        },
                        None => None,
                    }
                },
                _ => None,
            },
            None => None,
        }
    } else if segments.len() == 2 {
        match spec_find_option(options, segments[segments.len() - 2]) {
            Some(subcommand_value) => match subcommand_value {
                CommandOptionValue::SubCommand(subcommand_options) => spec_find_option(
                    subcommand_options@,
                    segments.last(),
                ),
                _ => None,
            },
            None => None,
        }
    } else {
        spec_find_option(options, segments.last())
    }
}

/// Find the value of the first option of `options` with the given name.
///
/// Returns `None` if not found.
pub fn find_option(options: Vec<CommandDataOption>, name: &str) -> (found: Option<
    CommandOptionValue,
>)
    ensures
        found == spec_find_option(options@, name@),
{
    let mut remaining = options;
    while remaining.len() > 0
        invariant
            spec_find_option(options@, name@) == spec_find_option(remaining@, name@),
        decreases remaining@.len(),
    {
        let ghost previous = remaining@;
        let option = remaining.remove(0);
        proof {
            assert(previous.remove(0) =~= previous.drop_first());
        }
        if str_eq(option.name.as_str(), name) {
            return Some(option.value);
        }
    }
    None
}

/// Find the value of the option of `options` with the given name, looking
/// inside subcommands and subcommand groups as the name's parts direct.
///
/// Returns `None` if not found.
pub fn option_value(options: Vec<CommandDataOption>, name: &str) -> (value: Option<
    CommandOptionValue,
>)
    ensures
        value == spec_option_value(options@, name@),
{
    let (option_name, subcommand_name_opt, subcommand_group_name_opt) = parse_option_name(name);

    if let (Some(subcommand_group_name), Some(subcommand_name)) = (
        subcommand_group_name_opt,
        subcommand_name_opt,
    ) {
        let group_options = match find_option(options, subcommand_group_name) {
            Some(group_value) => match group_value.subcommand_group() {
                Some(group_options) => group_options,
                None => {
                    return None;
                },
            },
            None => {
                return None;
            },
        };
        let subcommand_options = match find_option(group_options, subcommand_name) {
            Some(subcommand_value) => match subcommand_value.subcommand() {
                Some(subcommand_options) => subcommand_options,
                None => {
                    return None;
                },
            },
            None => {
                return None;
            },
        };
        find_option(subcommand_options, option_name)
    } else if let Some(subcommand_name) = subcommand_name_opt {
        let subcommand_options = match find_option(options, subcommand_name) {
            Some(subcommand_value) => match subcommand_value.subcommand() {
                Some(subcommand_options) => subcommand_options,
                None => {
                    return None;
                },
            },
            None => {
                return None;
            },
        };
        find_option(subcommand_options, option_name)
    } else {
        find_option(options, option_name)
    }
}

/// Extracting the value of a command option by its name.
pub trait ExtractOption {
    /// Extract the value of the option with the given name.
    ///
    /// Returns `None` if not found.
    ///
    /// # Subcommands
    ///
    /// To extract an option from a subcommand or subcommand group, use the
    /// syntax `subcommand_name/option_name` or
    /// `subcommand_group_name/subcommand_name/option_name` in the name
    /// argument.
    ///
    /// You can still use just `option_name` to extract the subcommand or
    /// subcommand group values.
    fn option(self, name: &str) -> Option<CommandOptionValue>;
}

impl ExtractOption for Vec<CommandDataOption> {
    fn option(self, name: &str) -> Option<CommandOptionValue> {
        option_value(self, name)
    }
}

impl CommandOptionValue {
    /// Extract an attachment's identifier from an option.
    ///
    /// Returns `None` if the option is not an attachment option.
    pub fn attachment(&self) -> (extracted: Option<u64>)
        ensures
            self matches CommandOptionValue::Attachment(id) ==> extracted == Some(*id),
            !(self is Attachment) ==> extracted is None,
    {
        if let CommandOptionValue::Attachment(attachment_id) = self {
            Some(*attachment_id)
        } else {
            None
        }
    }

    /// Extract `bool` from an option.
    ///
    /// Returns `None` if the option is not a bool option.
    pub fn boolean(&self) -> (extracted: Option<bool>)
        ensures
            self matches CommandOptionValue::Boolean(value) ==> extracted == Some(*value),
            !(self is Boolean) ==> extracted is None,
    {
        if let CommandOptionValue::Boolean(val) = self {
            Some(*val)
        } else {
            None
        }
    }

    /// Extract a channel's identifier from an option.
    ///
    /// Returns `None` if the option is not a channel option.
    pub fn channel(&self) -> (extracted: Option<u64>)
        ensures
            self matches CommandOptionValue::Channel(id) ==> extracted == Some(*id),
            !(self is Channel) ==> extracted is None,
    {
        if let CommandOptionValue::Channel(val) = self {
            Some(*val)
        } else {
            None
        }
    }

    /// Extract the name and kind of the focused option.
    ///
    /// Returns `None` if the option is not focused.
    pub fn focused(self) -> (extracted: Option<(String, CommandOptionType)>)
        ensures
            self matches CommandOptionValue::Focused(name, kind) ==> extracted == Some(
                (name, kind),
            ),
            !(self is Focused) ==> extracted is None,
    {
        if let CommandOptionValue::Focused(name, option_type) = self {
            Some((name, option_type))
        } else {
            None
        }
    }

    /// Extract `i64` from an option.
    ///
    /// Returns `None` if the option is not an integer option.
    pub fn integer(&self) -> (extracted: Option<i64>)
        ensures
            self matches CommandOptionValue::Integer(value) ==> extracted == Some(*value),
            !(self is Integer) ==> extracted is None,
    {
        if let CommandOptionValue::Integer(data) = self {
            Some(*data)
        } else {
            None
        }
    }

    /// Extract a mentionable value's identifier from an option.
    ///
    /// Returns `None` if the option is not a mentionable value option.
    pub fn mentionable(&self) -> (extracted: Option<u64>)
        ensures
            self matches CommandOptionValue::Mentionable(id) ==> extracted == Some(*id),
            !(self is Mentionable) ==> extracted is None,
    {
        if let CommandOptionValue::Mentionable(data) = self {
            Some(*data)
        } else {
            None
        }
    }

    /// Extract a numeric option's value, as the IEEE-754 bit pattern the
    /// option carries.
    ///
    /// Returns `None` if the option is not a number option.
    pub fn number(&self) -> (extracted: Option<u64>)
        ensures
            self matches CommandOptionValue::Number(bits) ==> extracted == Some(*bits),
            !(self is Number) ==> extracted is None,
    {
        if let CommandOptionValue::Number(data) = self {
            Some(*data)
        } else {
            None
        }
    }

    /// Extract a role's identifier from an option.
    ///
    /// Returns `None` if the option is not a role option.
    pub fn role(&self) -> (extracted: Option<u64>)
        ensures
            self matches CommandOptionValue::Role(id) ==> extracted == Some(*id),
            !(self is Role) ==> extracted is None,
    {
        if let CommandOptionValue::Role(data) = self {
            Some(*data)
        } else {
            None
        }
    }

    /// Extract `String` from an option.
    ///
    /// Returns `None` if the option is not a string option.
    pub fn string(self) -> (extracted: Option<String>)
        ensures
            self matches CommandOptionValue::String(value) ==> extracted == Some(value),
            !(self is String) ==> extracted is None,
    {
        if let CommandOptionValue::String(data) = self {
            Some(data)
        } else {
            None
        }
    }

    /// Extract a subcommand's options from an option.
    ///
    /// Returns `None` if the option is not a subcommand option.
    pub fn subcommand(self) -> (extracted: Option<Vec<CommandDataOption>>)
        ensures
            self matches CommandOptionValue::SubCommand(options) ==> extracted == Some(options),
            !(self is SubCommand) ==> extracted is None,
    {
        if let CommandOptionValue::SubCommand(data) = self {
            Some(data)
        } else {
            None
        }
    }

    /// Extract a subcommand group's options from an option.
    ///
    /// Returns `None` if the option is not a subcommand group option.
    pub fn subcommand_group(self) -> (extracted: Option<Vec<CommandDataOption>>)
        ensures
            self matches CommandOptionValue::SubCommandGroup(options) ==> extracted == Some(
                options,
            ),
            !(self is SubCommandGroup) ==> extracted is None,
    {
        if let CommandOptionValue::SubCommandGroup(data) = self {
            Some(data)
        } else {
            None
        }
    }

    /// Extract a user's identifier from an option.
    ///
    /// Returns `None` if the option is not a user option.
    pub fn user(&self) -> (extracted: Option<u64>)
        ensures
            self matches CommandOptionValue::User(id) ==> extracted == Some(*id),
            !(self is User) ==> extracted is None,
    {
        if let CommandOptionValue::User(data) = self {
            Some(*data)
        } else {
            None
        }
    }
}

/// Split an option name into its option, subcommand and subcommand group
/// parts.
///
/// The parts are the last, second-to-last and third-to-last `/`-separated
/// segments of the name: a plain `option_name` has no subcommand or group
/// part, `subcommand_name/option_name` has a subcommand part, and
/// `subcommand_group_name/subcommand_name/option_name` has both. Anything
/// before the third-to-last segment is ignored.
pub fn parse_option_name<'name>(name: &'name str) -> (parts: (
    &'name str,
    Option<&'name str>,
    Option<&'name str>,
))
    ensures
        ({
            let segments = split_on(name@, '/');
            &&& parts.0@ == segments.last()
            &&& (parts.1 is Some <==> segments.len() >= 2)
            &&& (parts.1 matches Some(subcommand) ==> subcommand@ == segments[segments.len() - 2])
            &&& (parts.2 is Some <==> segments.len() >= 3)
            &&& (parts.2 matches Some(group) ==> group@ == segments[segments.len() - 3])
        }),
{
    let length = name.unicode_len();
    let mut last_sep: Option<usize> = None;
    let mut second_sep: Option<usize> = None;
    let mut third_sep: Option<usize> = None;
    let mut j = length;
    while j > 0
        invariant_except_break
            third_sep is None,
        invariant
            j <= length,
            length == name@.len(),
            second_sep is Some ==> last_sep is Some,
            third_sep is Some ==> second_sep is Some,
            last_sep matches Some(a) ==> j <= a < length && name@[a as int] == '/'
                && sep_free_range(name@, '/', a as int + 1, length as int),
            last_sep is None ==> sep_free_range(name@, '/', j as int, length as int),
            second_sep matches Some(b) ==> (last_sep matches Some(a) && j <= b < a
                && name@[b as int] == '/' && sep_free_range(name@, '/', b as int + 1, a as int)),
            last_sep matches Some(a) ==> (second_sep is None ==> sep_free_range(
                name@,
                '/',
                j as int,
                a as int,
            )),
            second_sep matches Some(b) ==> (third_sep is None ==> sep_free_range(
                name@,
                '/',
                j as int,
                b as int,
            )),
            third_sep matches Some(c) ==> (second_sep matches Some(b) && j <= c < b
                && name@[c as int] == '/' && sep_free_range(name@, '/', c as int + 1, b as int)),
        ensures
            third_sep is Some || j == 0,
        decreases j,
    {
        j -= 1;
        if name.get_char(j) == '/' {
            if last_sep.is_none() {
                last_sep = Some(j);
            } else if second_sep.is_none() {
                second_sep = Some(j);
            } else {
                third_sep = Some(j);
                break ;
            }
        }
    }
    match last_sep {
        None => {
            proof {
                lemma_split_on_sep_free(name@, '/');
            }
            (name, None, None)
        },
        Some(a) => {
            proof {
                lemma_split_on_last_sep(name@, '/', a as int);
                lemma_split_on_len(name@.take(a as int), '/');
            }
            let option_name = name.substring_char(a + 1, length);
            proof {
                assert(name@.subrange(a as int + 1, length as int) =~= name@.skip(a as int + 1));
            }
            match second_sep {
                None => {
                    let subcommand_name = name.substring_char(0, a);
                    proof {
                        assert(forall|i: int|
                            0 <= i < a ==> name@.take(a as int)[i] == name@[i]);
                        lemma_split_on_sep_free(name@.take(a as int), '/');
                        assert(name@.subrange(0, a as int) =~= name@.take(a as int));
                    }
                    (option_name, Some(subcommand_name), None)
                },
                Some(b) => {
                    proof {
                        assert(forall|i: int|
                            b + 1 <= i < a ==> name@.take(a as int)[i] == name@[i]);
                        lemma_split_on_last_sep(name@.take(a as int), '/', b as int);
                        lemma_split_on_len(name@.take(b as int), '/');
                        assert(name@.take(a as int).take(b as int) =~= name@.take(b as int));
                        assert(name@.take(a as int).skip(b as int + 1) =~= name@.subrange(
                            b as int + 1,
                            a as int,
                        ));
                    }
                    let subcommand_name = name.substring_char(b + 1, a);
                    let group_name = match third_sep {
                        None => {
                            proof {
                                assert(forall|i: int|
                                    0 <= i < b ==> name@.take(b as int)[i] == name@[i]);
                                lemma_split_on_sep_free(name@.take(b as int), '/');
                                assert(name@.subrange(0, b as int) =~= name@.take(b as int));
                            }
                            name.substring_char(0, b)
                        },
                        Some(c) => {
                            proof {
                                assert(forall|i: int|
                                    c + 1 <= i < b ==> name@.take(b as int)[i] == name@[i]);
                                lemma_split_on_last_sep(name@.take(b as int), '/', c as int);
                                lemma_split_on_len(name@.take(c as int), '/');
                                assert(name@.take(b as int).skip(c as int + 1) =~= name@.subrange(
                                    c as int + 1,
                                    b as int,
                                ));
                            }
                            name.substring_char(c + 1, b)
                        },
                    };
                    (option_name, Some(subcommand_name), Some(group_name))
                },
            }
        },
    }
}

} // verus!
