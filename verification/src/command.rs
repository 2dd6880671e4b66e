use vstd::prelude::*;
use vstd::string::StringSliceAdditionalSpecFns;
use crate::json::append_bool;
use crate::json::append_json_string;
use crate::json::append_str;
use crate::json::append_u8_decimal;
use crate::json::bool_json;
use crate::json::json_string;
use crate::json::str_to_bytes;
use crate::json::u8_decimal;

verus! {

/// The mathematical content of one enumerated choice of a command option.
pub struct ChoiceModel {
    pub name: Seq<u8>,
    pub value: Seq<u8>,
}

/// The mathematical content of a command option.
pub struct OptionModel {
    pub name: Seq<u8>,
    pub description: Seq<u8>,
    pub command_type: u8,
    pub required: bool,
    pub choices: Option<Seq<ChoiceModel>>,
}

/// The mathematical content of a command descriptor.
pub struct CommandModel {
    pub name: Seq<u8>,
    pub description: Seq<u8>,
    pub options: Option<OptionModel>,
}

/// One enumerated choice of a command option: a display name and the value
/// sent when it is picked.
pub struct DiscordChoice {
    pub name: Vec<u8>,
    pub value: Vec<u8>,
}

impl View for DiscordChoice {
    type V = ChoiceModel;

    open spec fn view(&self) -> ChoiceModel {
        ChoiceModel { name: self.name@, value: self.value@ }
    }
}

impl DeepView for DiscordChoice {
    type V = ChoiceModel;

    open spec fn deep_view(&self) -> ChoiceModel {
        self.view()
    }
}

impl DiscordChoice {
    /// A choice with the given name and value.
    pub fn new(name: &str, value: &str) -> (r: DiscordChoice)
        ensures
            r@.name == name.spec_bytes(),
            r@.value == value.spec_bytes(),
    {
        DiscordChoice { name: str_to_bytes(name), value: str_to_bytes(value) }
    }
}

/// A single option group of a command descriptor, with an incrementally
/// built choice list.
pub struct DiscordOption {
    pub name: Vec<u8>,
    pub description: Vec<u8>,
    pub command_type: u8,
    pub required: bool,
    pub choices: Option<Vec<DiscordChoice>>,
}

impl View for DiscordOption {
    type V = OptionModel;

    open spec fn view(&self) -> OptionModel {
        OptionModel {
            name: self.name@,
            description: self.description@,
            command_type: self.command_type,
            required: self.required,
            choices: match self.choices {
                Some(cs) => Some(cs.deep_view()),
                None => None,
            },
        }
    }
}

impl DiscordOption {
    /// An option with the given name, description, type tag and required
    /// flag, and no choices yet.
    pub fn new(name: &str, description: &str, command_type: u8, required: bool) -> (r:
        DiscordOption)
        ensures
            r@.name == name.spec_bytes(),
            r@.description == description.spec_bytes(),
            r@.command_type == command_type,
            r@.required == required,
            r@.choices is None,
    {
        DiscordOption {
            name: str_to_bytes(name),
            description: str_to_bytes(description),
            command_type,
            required,
            choices: None,
        }
    }

    /// Appends one choice to the option's choice list, starting the list
    /// when it does not exist yet. No other attribute changes.
    pub fn add_choice(&mut self, choice: DiscordChoice)
        ensures
            final(self)@.name == old(self)@.name,
            final(self)@.description == old(self)@.description,
            final(self)@.command_type == old(self)@.command_type,
            final(self)@.required == old(self)@.required,
            final(self)@.choices == match old(self)@.choices {
                Some(cs) => Some(cs.push(choice@)),
                None => Some(seq![choice@]),
            },
    {
        if let Some(choices) = &mut self.choices {
            choices.push(choice);
        } else {
            self.choices = Some(vec![choice]);
        }
    }
}

/// A command descriptor: the registration payload for one slash command.
pub struct DiscordCommand {
    pub name: Vec<u8>,
    pub description: Vec<u8>,
    pub options: Option<DiscordOption>,
}

impl View for DiscordCommand {
    type V = CommandModel;

    open spec fn view(&self) -> CommandModel {
        CommandModel {
            name: self.name@,
            description: self.description@,
            options: match self.options {
                Some(o) => Some(o@),
                None => None,
            },
        }
    }
}

/// The serialized form of a choice:
/// `{"name":<name>,"value":<value>}` with both values as JSON strings.
pub open spec fn choice_json(c: ChoiceModel) -> Seq<u8> {
    ("{\"name\":").spec_bytes() + json_string(c.name) + (",\"value\":").spec_bytes()
        + json_string(c.value) + ("}").spec_bytes()
}

/// The serialized form of a choice list: the choices in order, separated by
/// commas.
pub open spec fn choices_json(cs: Seq<ChoiceModel>) -> Seq<u8>
    decreases cs.len(),
{
    if cs.len() == 0 {
        Seq::empty()
    } else if cs.len() == 1 {
        choice_json(cs[0])
    } else {
        choices_json(cs.drop_last()) + (",").spec_bytes() + choice_json(cs.last())
    }
}

/// The serialized form of an option: name, description, type tag, required
/// flag and choices, in that order; an absent choice list appears as `null`.
pub open spec fn option_json(o: OptionModel) -> Seq<u8> {
    ("{\"name\":").spec_bytes() + json_string(o.name) + (",\"description\":").spec_bytes()
        + json_string(o.description) + (",\"type\":").spec_bytes() + u8_decimal(o.command_type) + (
    ",\"required\":").spec_bytes() + bool_json(o.required) + (",\"choices\":").spec_bytes() + (
    match o.choices {
        Some(cs) => ("[").spec_bytes() + choices_json(cs) + ("]").spec_bytes(),
        None => ("null").spec_bytes(),
    }) + ("}").spec_bytes()
}

/// The serialized form of a command descriptor: name, description and the
/// option group, in that order; an absent option group appears as `null`.
pub open spec fn command_json(c: CommandModel) -> Seq<u8> {
    ("{\"name\":").spec_bytes() + json_string(c.name) + (",\"description\":").spec_bytes()
        + json_string(c.description) + (",\"options\":").spec_bytes() + (match c.options {
        Some(o) => option_json(o),
        None => ("null").spec_bytes(),
    }) + ("}").spec_bytes()
}

/// Appends the serialized choice list to `out`.
fn append_choices(out: &mut Vec<u8>, cs: &Vec<DiscordChoice>)
    ensures
        final(out)@ == old(out)@ + choices_json(cs.deep_view()),
{
    let mut i: usize = 0;
    while i < cs.len()
        invariant
            i <= cs@.len(),
            cs.deep_view().len() == cs@.len(),
            forall|j: int| 0 <= j < cs@.len() ==> cs.deep_view()[j] == cs@[j]@,
            out@ == old(out)@ + choices_json(cs.deep_view().subrange(0, i as int)),
        decreases cs@.len() - i,
    {
        proof {
            let pre = cs.deep_view().subrange(0, i + 1);
            assert(pre.drop_last() =~= cs.deep_view().subrange(0, i as int));
            assert(pre.last() == cs.deep_view()[i as int]);
        }
        if i > 0 {
            append_str(out, ",");
        }
        append_str(out, "{\"name\":");
        append_json_string(out, cs[i].name.as_slice());
        append_str(out, ",\"value\":");
        append_json_string(out, cs[i].value.as_slice());
        append_str(out, "}");
        assert(out@ =~= old(out)@ + choices_json(cs.deep_view().subrange(0, i + 1)));
        i = i + 1;
    }
    assert(cs.deep_view().subrange(0, cs.deep_view().len() as int) =~= cs.deep_view());
}

/// Appends the serialized option group to `out`.
#[verifier::rlimit(60)]
fn append_option(out: &mut Vec<u8>, o: &DiscordOption)
    ensures
        final(out)@ == old(out)@ + option_json(o@),
{
    append_str(out, "{\"name\":");
    append_json_string(out, o.name.as_slice());
    append_str(out, ",\"description\":");
    append_json_string(out, o.description.as_slice());
    append_str(out, ",\"type\":");
    append_u8_decimal(out, o.command_type);
    append_str(out, ",\"required\":");
    append_bool(out, o.required);
    append_str(out, ",\"choices\":");
    match &o.choices {
        Some(cs) => {
            append_str(out, "[");
            append_choices(out, cs);
            append_str(out, "]");
        },
        None => {
            append_str(out, "null");
        },
    }
    append_str(out, "}");
    assert(out@ =~= old(out)@ + option_json(o@));
}

impl DiscordCommand {
    /// A command descriptor with the given name and description and no
    /// option group.
    pub fn new(name: &str, description: &str) -> (r: DiscordCommand)
        ensures
            r@.name == name.spec_bytes(),
            r@.description == description.spec_bytes(),
            r@.options is None,
    {
        DiscordCommand {
            name: str_to_bytes(name),
            description: str_to_bytes(description),
            options: None,
        }
    }

    /// The registration payload for this command, serialized as JSON bytes.
    pub fn to_json(&self) -> (r: Vec<u8>)
        ensures
            r@ == command_json(self@),
    {
        let mut out: Vec<u8> = Vec::new();
        append_str(&mut out, "{\"name\":");
        append_json_string(&mut out, self.name.as_slice());
        append_str(&mut out, ",\"description\":");
        append_json_string(&mut out, self.description.as_slice());
        append_str(&mut out, ",\"options\":");
        match &self.options {
            Some(o) => {
                append_option(&mut out, o);
            },
            None => {
                append_str(&mut out, "null");
            },
        }
        append_str(&mut out, "}");
        assert(out@ =~= command_json(self@));
        out
    }
}

} // verus!
