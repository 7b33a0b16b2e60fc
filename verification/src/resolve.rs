//! Resource names: which subject, queue group, stream or consumer an
//! operation targets, given an override and a configured default.

use crate::config::ConfigKey;
use vstd::prelude::*;
use vstd::string::*;

verus! {

/// The kinds of bus resource a tool may need a name for.
#[derive(Clone, Copy, Debug, PartialEq, Eq, Structural)]
pub enum NameField {
    Subject,
    Queue,
    Stream,
    Consumer,
}

impl NameField {
    /// How the field is called in messages.
    pub open spec fn title_text(self) -> Seq<char> {
        match self {
            NameField::Subject => "Subject"@,
            NameField::Queue => "Queue group"@,
            NameField::Stream => "Stream"@,
            NameField::Consumer => "Consumer"@,
        }
    }

    /// The command-line flag that overrides the field.
    pub open spec fn flag_text(self) -> Seq<char> {
        match self {
            NameField::Subject => "--subject"@,
            NameField::Queue => "--queue"@,
            NameField::Stream => "--stream"@,
            NameField::Consumer => "--consumer"@,
        }
    }

    /// How the configuration key of the field is written in a document.
    pub open spec fn key_text(self) -> Seq<char> {
        match self {
            NameField::Subject => "[nats].subject"@,
            NameField::Queue => "[nats].queue"@,
            NameField::Stream => "[nats].stream"@,
            NameField::Consumer => "[nats].consumer"@,
        }
    }

    /// The configuration key that holds the field's default.
    pub open spec fn spec_config_key(self) -> ConfigKey {
        match self {
            NameField::Subject => ConfigKey::Subject,
            NameField::Queue => ConfigKey::Queue,
            NameField::Stream => ConfigKey::Stream,
            NameField::Consumer => ConfigKey::Consumer,
        }
    }

    /// How the field is called in messages.
    pub fn title(self) -> (s: &'static str)
        ensures
            s@ == self.title_text(),
    {
        match self {
            NameField::Subject => "Subject",
            NameField::Queue => "Queue group",
            NameField::Stream => "Stream",
            NameField::Consumer => "Consumer",
        }
    }

    /// The command-line flag that overrides the field.
    pub fn flag(self) -> (s: &'static str)
        ensures
            s@ == self.flag_text(),
    {
        match self {
            NameField::Subject => "--subject",
            NameField::Queue => "--queue",
            NameField::Stream => "--stream",
            NameField::Consumer => "--consumer",
        }
    }

    /// How the configuration key of the field is written in a document.
    pub fn key_path(self) -> (s: &'static str)
        ensures
            s@ == self.key_text(),
    {
        match self {
            NameField::Subject => "[nats].subject",
            NameField::Queue => "[nats].queue",
            NameField::Stream => "[nats].stream",
            NameField::Consumer => "[nats].consumer",
        }
    }

    /// The configuration key that holds the field's default.
    #[verifier::when_used_as_spec(spec_config_key)]
    pub fn config_key(self) -> (key: ConfigKey)
        ensures
            key == self.spec_config_key(),
    {
        match self {
            NameField::Subject => ConfigKey::Subject,
            NameField::Queue => ConfigKey::Queue,
            NameField::Stream => ConfigKey::Stream,
            NameField::Consumer => ConfigKey::Consumer,
        }
    }
}

/// Why a name could not be resolved.
#[derive(Clone, Copy, Debug, PartialEq, Eq, Structural)]
pub enum ResolutionError {
    /// The operation needs the name, and neither an override nor the
    /// configuration gives one.
    MissingRequiredName { field: NameField },
}

impl ResolutionError {
    /// The field whose name is missing.
    pub open spec fn spec_field(self) -> NameField {
        match self {
            ResolutionError::MissingRequiredName { field } => field,
        }
    }

    /// The field whose name is missing.
    #[verifier::when_used_as_spec(spec_field)]
    pub fn field(self) -> (field: NameField)
        ensures
            field == self.spec_field(),
    {
        match self {
            ResolutionError::MissingRequiredName { field } => field,
        }
    }

    /// The text of `message`.
    pub open spec fn message_text(self) -> Seq<char> {
        self.spec_field().title_text() + " is required. Pass "@ + self.spec_field().flag_text()
            + " or set "@ + self.spec_field().key_text() + " in config."@
    }

    /// Names the missing field, and the flag and the configuration key that
    /// would each supply it.
    pub fn message(self) -> (text: String)
        ensures
            text@ == self.message_text(),
    {
        let field = self.field();
        let mut text = String::from_str(field.title());
        text.append(" is required. Pass ");
        text.append(field.flag());
        text.append(" or set ");
        text.append(field.key_path());
        text.append(" in config.");
        text
    }
}

/// What resolving a name yields: the override where there is one, else the
/// configured default, else a failure if the name is required and absence
/// (`Ok(None)`) if it is not.
pub open spec fn resolution(
    explicit: Option<String>,
    default: Option<String>,
    required: bool,
    field: NameField,
) -> Result<Option<String>, ResolutionError> {
    if explicit is Some {
        Ok(explicit)
    } else if default is Some {
        Ok(default)
    } else if required {
        Err(ResolutionError::MissingRequiredName { field })
    } else {
        Ok(None)
    }
}

/// Resolves the name of `field` from an override and a configured default.
pub fn resolve(
    explicit: Option<String>,
    default: Option<String>,
    required: bool,
    field: NameField,
) -> (resolved: Result<Option<String>, ResolutionError>)
    ensures
        resolved == resolution(explicit, default, required, field),
{
    match explicit {
        Some(name) => Ok(Some(name)),
        None => match default {
            Some(name) => Ok(Some(name)),
            None => if required {
                Err(ResolutionError::MissingRequiredName { field })
            } else {
                Ok(None)
            },
        },
    }
}

/// Resolves a name that the operation cannot do without.
pub fn resolve_required(explicit: Option<String>, default: Option<String>, field: NameField) -> (resolved:
    Result<String, ResolutionError>)
    ensures
        match resolved {
            Ok(name) => resolution(explicit, default, true, field) == Ok::<
                Option<String>,
                ResolutionError,
            >(Some(name)),
            Err(e) => resolution(explicit, default, true, field) == Err::<
                Option<String>,
                ResolutionError,
            >(e),
        },
{
    match resolve(explicit, default, true, field) {
        Ok(Some(name)) => Ok(name),
        Ok(None) => Err(ResolutionError::MissingRequiredName { field }),
        Err(e) => Err(e),
    }
}

/// An override is returned as it is, whatever the configuration holds and
/// whether or not the name is required.
pub proof fn lemma_override_wins(
    name: String,
    default: Option<String>,
    required: bool,
    field: NameField,
)
    ensures
        resolution(Some(name), default, required, field) == Ok::<Option<String>, ResolutionError>(
            Some(name),
        ),
{
}

/// With neither an override nor a default, a required name fails to
/// resolve: no name, and so no empty one, is made up in its place.
pub proof fn lemma_required_name_is_never_invented(field: NameField)
    ensures
        resolution(None, None, true, field) == Err::<Option<String>, ResolutionError>(
            ResolutionError::MissingRequiredName { field },
        ),
{
}

} // verus!
