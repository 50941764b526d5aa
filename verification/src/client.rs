//! The user-supplied Client capability: the external collaborator that
//! performs the numeric work of the four operations.
//!
//! The engine never inspects or modifies the numeric content of
//! parameters or metrics — it only moves them.  Nothing is assumed about
//! an implementation: the dispatcher contains any failure it raises.

use vstd::prelude::*;

use crate::types::EvaluateIns;
use crate::types::EvaluateRes;
use crate::types::FitIns;
use crate::types::FitRes;
use crate::types::GetParametersRes;
use crate::types::GetPropertiesIns;
use crate::types::GetPropertiesRes;

verus! {

/// Failure raised by the user-supplied capability while performing an
/// operation.
#[derive(Clone, PartialEq, Eq, Debug)]
pub struct ClientError {
    pub message: String,
}

/// The four synchronous operations a participating client implements.
pub trait Client {
    /// Returns the client's current model parameters.
    fn get_parameters(&self) -> Result<GetParametersRes, ClientError>;

    /// Returns the client's properties for the given configuration.
    fn get_properties(&self, ins: GetPropertiesIns) -> Result<GetPropertiesRes, ClientError>;

    /// Trains on the given parameters and returns the updated ones.
    fn fit(&self, ins: FitIns) -> Result<FitRes, ClientError>;

    /// Scores the given parameters without updating model state.
    fn evaluate(&self, ins: EvaluateIns) -> Result<EvaluateRes, ClientError>;
}

} // verus!
