//! Why a connection could not be made.

use vstd::prelude::*;

verus! {

/// The reasons for which connecting to another object fails.
#[derive(Clone, Copy, Debug, PartialEq, Eq, Structural)]
pub enum FixedJointComponentError {
    /// The object to connect to does not exist.
    InvalidConnector,
    /// The owner of the connector has no rigid body.
    NoParentRigidBody,
    /// The object to connect to has no rigid body.
    NoConnectorRigidBody,
}

impl FixedJointComponentError {
    /// The text of the diagnostic for this error.
    pub open spec fn spec_message(self) -> Seq<char> {
        match self {
            FixedJointComponentError::InvalidConnector => "FixedJointComponent: Connector doesn't exist"@,
            FixedJointComponentError::NoParentRigidBody => "FixedJointComponent: Parent doesn't have a rigid body"@,
            FixedJointComponentError::NoConnectorRigidBody => "FixedJointComponent: Connector doesn't have a rigid body"@,
        }
    }

    /// The diagnostic for this error, as it is shown to a user.
    pub fn message(&self) -> (text: String)
        ensures
            text@ == self.spec_message(),
    {
        match self {
            FixedJointComponentError::InvalidConnector => String::from_str("FixedJointComponent: Connector doesn't exist"),
            FixedJointComponentError::NoParentRigidBody => String::from_str("FixedJointComponent: Parent doesn't have a rigid body"),
            FixedJointComponentError::NoConnectorRigidBody => String::from_str("FixedJointComponent: Connector doesn't have a rigid body"),
        }
    }
}

} // verus!
