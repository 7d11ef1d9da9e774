//! The ways in which a run of the wizard ends without a tunnel.
use vstd::prelude::*;
use vstd::string::*;

verus! {

/// An external program that must be installed before the wizard can run.
#[derive(Clone, Copy, Debug, PartialEq, Eq, Structural)]
pub enum Tool {
    AwsCli,
    SessionManagerPlugin,
}

/// One of the six fields of the parameter record.
#[derive(Clone, Copy, Debug, PartialEq, Eq, Structural)]
pub enum Field {
    ProfileName,
    InstanceId,
    Service,
    HostName,
    HostPort,
    LocalPort,
}

/// Why the workflow stopped. Every one of these is fatal to the run.
#[derive(Clone, Debug, PartialEq, Eq)]
pub enum WorkflowError {
    /// A required external tool is absent.
    PrerequisiteMissing(Tool),
    /// A stage needed a field that no earlier stage had populated.
    FieldUnset(Field),
    /// An external lookup failed; the text is the underlying cause.
    ProviderFailure(String),
    /// The operator pressed Escape, or there was nothing to choose from.
    UserCanceled,
    /// The tunnel process could not be started or waited on; the text is
    /// the command that was attempted.
    SubprocessFailure(String),
}

impl Tool {
    /// The sentence that tells the operator which tool to install.
    pub open spec fn message_spec(self) -> Seq<char> {
        match self {
            Tool::AwsCli => "aws cli is not installed. Please install it before running this program."@,
            Tool::SessionManagerPlugin => "session-manager-plugin is not installed. Please install it before running this program."@,
        }
    }

    /// The name under which the tool is started.
    pub open spec fn program_spec(self) -> Seq<char> {
        match self {
            Tool::AwsCli => "aws"@,
            Tool::SessionManagerPlugin => "session-manager-plugin"@,
        }
    }

    pub fn message(&self) -> (text: String)
        ensures
            text@ == self.message_spec(),
    {
        match self {
            Tool::AwsCli => String::from_str(
                "aws cli is not installed. Please install it before running this program.",
            ),
            Tool::SessionManagerPlugin => String::from_str(
                "session-manager-plugin is not installed. Please install it before running this program.",
            ),
        }
    }

    pub fn program(&self) -> (text: String)
        ensures
            text@ == self.program_spec(),
    {
        match self {
            Tool::AwsCli => String::from_str("aws"),
            Tool::SessionManagerPlugin => String::from_str("session-manager-plugin"),
        }
    }
}

impl Field {
    /// The sentence that names the field as missing.
    pub open spec fn message_spec(self) -> Seq<char> {
        match self {
            Field::ProfileName => "profile name is not set"@,
            Field::InstanceId => "instance id is not set"@,
            Field::Service => "destination type is empty"@,
            Field::HostName => "host name is not set"@,
            Field::HostPort => "host port is not set"@,
            Field::LocalPort => "local port is not set"@,
        }
    }

    pub fn message(&self) -> (text: String)
        ensures
            text@ == self.message_spec(),
    {
        match self {
            Field::ProfileName => String::from_str("profile name is not set"),
            Field::InstanceId => String::from_str("instance id is not set"),
            Field::Service => String::from_str("destination type is empty"),
            Field::HostName => String::from_str("host name is not set"),
            Field::HostPort => String::from_str("host port is not set"),
            Field::LocalPort => String::from_str("local port is not set"),
        }
    }
}

impl WorkflowError {
    /// What the operator is told.
    pub open spec fn message_spec(self) -> Seq<char> {
        match self {
            WorkflowError::PrerequisiteMissing(tool) => tool.message_spec(),
            WorkflowError::FieldUnset(field) => field.message_spec(),
            WorkflowError::ProviderFailure(cause) => cause@,
            WorkflowError::UserCanceled => "canceled by user"@,
            WorkflowError::SubprocessFailure(command) => command@,
        }
    }

    pub fn message(&self) -> (text: String)
        ensures
            text@ == self.message_spec(),
    {
        match self {
            WorkflowError::PrerequisiteMissing(tool) => tool.message(),
            WorkflowError::FieldUnset(field) => field.message(),
            WorkflowError::ProviderFailure(cause) => cause.clone(),
            WorkflowError::UserCanceled => String::from_str("canceled by user"),
            WorkflowError::SubprocessFailure(command) => command.clone(),
        }
    }
}

} // verus!
