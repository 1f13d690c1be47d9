//! The library's error type. Failures of outside libraries and of the
//! operating system are carried as text: their detail is only ever shown.
use vstd::prelude::*;
use crate::text::{concat, concat3};

verus! {

/// Everything that can go wrong, by kind. Where a variant has a `detail`
/// field, it is the rendered outside error, kept for the log.
#[derive(Debug)]
pub enum LitterboxError {
    RunCommand(String, String),
    CommandFailed(String, String),
    PodmanError(String, String),
    ParseOutput(String),
    Deserialize(String),
    EnvVarUndefined(String),
    EnvVarInvalid(String, String),
    DirUncreatable(String, String),
    WriteFailed(String, String),
    ReadFailed(String, String),
    ExistsFailed(String, String),
    RemoveFailed(String, String),
    CreateFailed(String, String),
    NoContainerForName,
    MultipleContainersForName,
    ContainerAlreadyExists(String),
    NoImageForName,
    MultipleImagesForName,
    ImageAlreadyExists(String),
    DockerfileAlreadyExists(String),
    PromptError(String),
    FailedToSerialise(String),
    KeyAlreadyExists(String),
    KeyDoesNotExist(String),
    AlreadyAttachedToKey(String, String),
    IncorrectPassword,
    HashPassword,
    DecryptKey(String),
    Nix(String),
    InvalidDevicePath(String),
    ConnectSocket(String),
    RegisterKey(String),
    ParseKeyFile(String),
    ParseSettingsFile(String),
    InvalidInput(String),
}

impl LitterboxError {
    /// The sentence shown to the user for this error.
    pub open spec fn spec_message(&self) -> Seq<char> {
        match self {
            LitterboxError::RunCommand(_, cmd) => "Could not run "@ + cmd@ + " command. Perhaps it is not installed?"@,
            LitterboxError::CommandFailed(_, cmd) => cmd@ + " command failed with non-zero error code."@,
            LitterboxError::PodmanError(_, _) => "Podman command returned non-zero error code."@,
            LitterboxError::ParseOutput(_) => "Could not parse output from podman."@,
            LitterboxError::Deserialize(_) => "Could not deserialize output from podman. Unexpected format."@,
            LitterboxError::EnvVarUndefined(name) => "Environment variable not defined: "@ + name@ + "."@,
            LitterboxError::EnvVarInvalid(name, _) => "Environment variable not a valid string: "@ + name@ + "."@,
            LitterboxError::DirUncreatable(_, path) => "Directory could not be created: "@ + path@ + "."@,
            LitterboxError::WriteFailed(_, path) => "File could not be written: "@ + path@ + "."@,
            LitterboxError::ReadFailed(_, path) => "File could not be read: "@ + path@ + "."@,
            LitterboxError::ExistsFailed(_, path) => "Could not check if file exists: "@ + path@ + "."@,
            LitterboxError::RemoveFailed(_, path) => "Could not remove file: "@ + path@ + "."@,
            LitterboxError::CreateFailed(_, path) => "File could not be created: "@ + path@ + "."@,
            LitterboxError::NoContainerForName => "A container with the specified Litterbox name could not be found."@,
            LitterboxError::MultipleContainersForName => "Multiple containers were found with the specified Litterbox name."@,
            LitterboxError::ContainerAlreadyExists(id) => "Container for Litterbox already exists with id: "@ + id@ + "."@,
            LitterboxError::NoImageForName => "An image with the specified Litterbox name could not be found."@,
            LitterboxError::MultipleImagesForName => "Multiple images were found with the specified Litterbox name."@,
            LitterboxError::ImageAlreadyExists(id) => "Image for Litterbox already exists with id: "@ + id@ + "."@,
            LitterboxError::DockerfileAlreadyExists(path) => "Dockerfile for Litterbox already exists at "@ + path@ + "."@,
            LitterboxError::PromptError(_) => "Failed to retrieve valid input from user."@,
            LitterboxError::FailedToSerialise(name) => "Failed to serialise "@ + name@ + "."@,
            LitterboxError::KeyAlreadyExists(name) => "Key named "@ + name@ + " already exists."@,
            LitterboxError::KeyDoesNotExist(name) => "Key named "@ + name@ + " does not exist."@,
            LitterboxError::AlreadyAttachedToKey(key, lbx) => "Litterbox named "@ + lbx@ + " already attached to key named "@ + key@ + "."@,
            LitterboxError::IncorrectPassword => "The provided password was not correct."@,
            LitterboxError::HashPassword => "Failed to hash the password."@,
            LitterboxError::DecryptKey(name) => "Failed to decrypt key named "@ + name@ + "."@,
            LitterboxError::Nix(detail) => "Linux error: "@ + detail@,
            LitterboxError::InvalidDevicePath(path) => "The following device path is not valid: "@ + path@,
            LitterboxError::ConnectSocket(_) => "Failed to connect to socket."@,
            LitterboxError::RegisterKey(_) => "Failed to register SSH key with internal agent."@,
            LitterboxError::ParseKeyFile(_) => "Failed to parse keyfile."@,
            LitterboxError::ParseSettingsFile(_) => "Failed to parse settings file."@,
            LitterboxError::InvalidInput(reason) => "Invalid input: "@ + reason@,
        }
    }

    /// The outside error's rendering that goes to the log, if the variant
    /// carries one.
    pub open spec fn spec_detail(&self) -> Option<Seq<char>> {
        match self {
            LitterboxError::RunCommand(detail, _) => Some(detail@),
            LitterboxError::CommandFailed(status, _) => Some(status@),
            LitterboxError::PodmanError(_, stderr) => Some(stderr@),
            LitterboxError::ParseOutput(detail) => Some(detail@),
            LitterboxError::Deserialize(detail) => Some(detail@),
            LitterboxError::EnvVarInvalid(_, value) => Some(value@),
            LitterboxError::DirUncreatable(detail, _) => Some(detail@),
            LitterboxError::WriteFailed(detail, _) => Some(detail@),
            LitterboxError::ReadFailed(detail, _) => Some(detail@),
            LitterboxError::ExistsFailed(detail, _) => Some(detail@),
            LitterboxError::RemoveFailed(detail, _) => Some(detail@),
            LitterboxError::CreateFailed(detail, _) => Some(detail@),
            LitterboxError::PromptError(detail) => Some(detail@),
            LitterboxError::ConnectSocket(detail) => Some(detail@),
            LitterboxError::RegisterKey(detail) => Some(detail@),
            LitterboxError::ParseKeyFile(detail) => Some(detail@),
            LitterboxError::ParseSettingsFile(detail) => Some(detail@),
            _ => None,
        }
    }

    pub fn message(&self) -> (r: String)
        ensures
            r@ == self.spec_message(),
    {
        match self {
            LitterboxError::RunCommand(_, cmd) => concat3("Could not run ", cmd.as_str(), " command. Perhaps it is not installed?"),
            LitterboxError::CommandFailed(_, cmd) => concat(cmd.as_str(), " command failed with non-zero error code."),
            LitterboxError::PodmanError(_, _) => String::from_str("Podman command returned non-zero error code."),
            LitterboxError::ParseOutput(_) => String::from_str("Could not parse output from podman."),
            LitterboxError::Deserialize(_) => String::from_str("Could not deserialize output from podman. Unexpected format."),
            LitterboxError::EnvVarUndefined(name) => concat3("Environment variable not defined: ", name.as_str(), "."),
            LitterboxError::EnvVarInvalid(name, _) => concat3("Environment variable not a valid string: ", name.as_str(), "."),
            LitterboxError::DirUncreatable(_, path) => concat3("Directory could not be created: ", path.as_str(), "."),
            LitterboxError::WriteFailed(_, path) => concat3("File could not be written: ", path.as_str(), "."),
            LitterboxError::ReadFailed(_, path) => concat3("File could not be read: ", path.as_str(), "."),
            LitterboxError::ExistsFailed(_, path) => concat3("Could not check if file exists: ", path.as_str(), "."),
            LitterboxError::RemoveFailed(_, path) => concat3("Could not remove file: ", path.as_str(), "."),
            LitterboxError::CreateFailed(_, path) => concat3("File could not be created: ", path.as_str(), "."),
            LitterboxError::NoContainerForName => String::from_str("A container with the specified Litterbox name could not be found."),
            LitterboxError::MultipleContainersForName => String::from_str("Multiple containers were found with the specified Litterbox name."),
            LitterboxError::ContainerAlreadyExists(id) => concat3("Container for Litterbox already exists with id: ", id.as_str(), "."),
            LitterboxError::NoImageForName => String::from_str("An image with the specified Litterbox name could not be found."),
            LitterboxError::MultipleImagesForName => String::from_str("Multiple images were found with the specified Litterbox name."),
            LitterboxError::ImageAlreadyExists(id) => concat3("Image for Litterbox already exists with id: ", id.as_str(), "."),
            LitterboxError::DockerfileAlreadyExists(path) => concat3("Dockerfile for Litterbox already exists at ", path.as_str(), "."),
            LitterboxError::PromptError(_) => String::from_str("Failed to retrieve valid input from user."),
            LitterboxError::FailedToSerialise(name) => concat3("Failed to serialise ", name.as_str(), "."),
            LitterboxError::KeyAlreadyExists(name) => concat3("Key named ", name.as_str(), " already exists."),
            LitterboxError::KeyDoesNotExist(name) => concat3("Key named ", name.as_str(), " does not exist."),
            LitterboxError::AlreadyAttachedToKey(key, lbx) => {
                let head = concat3("Litterbox named ", lbx.as_str(), " already attached to key named ");
                concat3(head.as_str(), key.as_str(), ".")
            },
            LitterboxError::IncorrectPassword => String::from_str("The provided password was not correct."),
            LitterboxError::HashPassword => String::from_str("Failed to hash the password."),
            LitterboxError::DecryptKey(name) => concat3("Failed to decrypt key named ", name.as_str(), "."),
            LitterboxError::Nix(detail) => concat("Linux error: ", detail.as_str()),
            LitterboxError::InvalidDevicePath(path) => concat("The following device path is not valid: ", path.as_str()),
            LitterboxError::ConnectSocket(_) => String::from_str("Failed to connect to socket."),
            LitterboxError::RegisterKey(_) => String::from_str("Failed to register SSH key with internal agent."),
            LitterboxError::ParseKeyFile(_) => String::from_str("Failed to parse keyfile."),
            LitterboxError::ParseSettingsFile(_) => String::from_str("Failed to parse settings file."),
            LitterboxError::InvalidInput(reason) => concat("Invalid input: ", reason.as_str()),
        }
    }

    pub fn detail(&self) -> (r: Option<String>)
        ensures
            r matches Some(d) ==> self.spec_detail() == Some(d@),
            r is None ==> self.spec_detail() is None,
    {
        match self {
            LitterboxError::RunCommand(detail, _) => Some(detail.clone()),
            LitterboxError::CommandFailed(status, _) => Some(status.clone()),
            LitterboxError::PodmanError(_, stderr) => Some(stderr.clone()),
            LitterboxError::ParseOutput(detail) => Some(detail.clone()),
            LitterboxError::Deserialize(detail) => Some(detail.clone()),
            LitterboxError::EnvVarInvalid(_, value) => Some(value.clone()),
            LitterboxError::DirUncreatable(detail, _) => Some(detail.clone()),
            LitterboxError::WriteFailed(detail, _) => Some(detail.clone()),
            LitterboxError::ReadFailed(detail, _) => Some(detail.clone()),
            LitterboxError::ExistsFailed(detail, _) => Some(detail.clone()),
            LitterboxError::RemoveFailed(detail, _) => Some(detail.clone()),
            LitterboxError::CreateFailed(detail, _) => Some(detail.clone()),
            LitterboxError::PromptError(detail) => Some(detail.clone()),
            LitterboxError::ConnectSocket(detail) => Some(detail.clone()),
            LitterboxError::RegisterKey(detail) => Some(detail.clone()),
            LitterboxError::ParseKeyFile(detail) => Some(detail.clone()),
            LitterboxError::ParseSettingsFile(detail) => Some(detail.clone()),
            _ => None,
        }
    }
}

} // verus!
