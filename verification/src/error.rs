//! What can go wrong in the manager.

use vstd::prelude::*;
use vstd::string::StringExecFns;

verus! {

/// `sonor::Error`, the error of the speaker library: carried through unread.
#[verifier::external_type_specification]
#[verifier::external_body]
pub struct ExSonorError(sonor::Error);

/// `roxmltree::Error`, the error of the XML parser: carried through unread.
#[verifier::external_type_specification]
#[verifier::external_body]
pub struct ExXmlError(roxmltree::Error);

/// Errors relevant to the manager.
#[derive(Debug)]
pub enum ManagerError {
    /// An error of the speaker library, handed on as it came.
    Sonor(sonor::Error),
    /// An event subscription could not be set up.
    SubscriberError(String),
    /// The controller has shut down: the command channel is closed.
    ControllerOffline,
    /// The controller dropped the sender on which the reply was due.
    MessageRecvError,
    /// The controller knows no speaker yet.
    ControllerNotInitialized,
    /// No speaker carries the requested room name.
    ZoneDoesNotExist,
    /// A zone action was answered with something other than what it yields.
    ZoneActionError,
    /// The requested content was not found.
    ContentNotFound,
}

/// The result type of the manager.
pub type Result<T, E = ManagerError> = core::result::Result<T, E>;

/// `From<roxmltree::Error>` of `sonor::Error`: the XML error inside the
/// speaker library's error type.
#[verifier::external_body]
pub(crate) fn xml_failure(e: roxmltree::Error) -> sonor::Error {
    sonor::Error::from(e)
}

/// `rupnp::Error::XmlMissingElement`, inside the speaker library's error
/// type: the document `parent` lacks the element or attribute `child`.
#[verifier::external_body]
pub(crate) fn missing_element(parent: &str, child: &str) -> sonor::Error {
    sonor::Error::UPnP(rupnp::Error::XmlMissingElement(parent.to_string(), child.to_string()))
}

/// `Display` of `sonor::Error`: the message of the speaker library's error.
#[verifier::external_body]
fn remote_message(e: &sonor::Error) -> String {
    e.to_string()
}

/// The message of an error of the manager's own. An error of the speaker
/// library has the message that the library gives it.
pub open spec fn own_message(e: ManagerError) -> Seq<char> {
    match e {
        ManagerError::Sonor(_) => Seq::empty(),
        ManagerError::SubscriberError(reason) => "Error in event subscription: "@ + reason@,
        ManagerError::ControllerOffline => "Controller has shut down."@,
        ManagerError::MessageRecvError => "Controller has dropped the response sender"@,
        ManagerError::ControllerNotInitialized => "Controller not initialized"@,
        ManagerError::ZoneDoesNotExist => "The requested zone name is not valid"@,
        ManagerError::ZoneActionError => "Error encountered performing zone action"@,
        ManagerError::ContentNotFound => "Could not find the requested content"@,
    }
}

impl ManagerError {
    /// The message of the error.
    pub fn message(&self) -> (r: String)
        ensures
            !(self is Sonor) ==> r@ == own_message(*self),
    {
        match self {
            ManagerError::Sonor(e) => remote_message(e),
            ManagerError::SubscriberError(reason) => String::from_str(
                "Error in event subscription: ",
            ).concat(reason.as_str()),
            ManagerError::ControllerOffline => String::from_str("Controller has shut down."),
            ManagerError::MessageRecvError => String::from_str(
                "Controller has dropped the response sender",
            ),
            ManagerError::ControllerNotInitialized => String::from_str("Controller not initialized"),
            ManagerError::ZoneDoesNotExist => String::from_str(
                "The requested zone name is not valid",
            ),
            ManagerError::ZoneActionError => String::from_str(
                "Error encountered performing zone action",
            ),
            ManagerError::ContentNotFound => String::from_str(
                "Could not find the requested content",
            ),
        }
    }
}

} // verus!
