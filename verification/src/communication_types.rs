//! The messages that nodes exchange, and what a node answers its API.

use vstd::prelude::*;
use libp2p::Multiaddr;
use crate::errors::{DirectorySpecificErrors, DirectorySpecificErrorsView};
use crate::jobs::{RequestJobState, RequestJobStateView};

verus! {

/// What a request between nodes asks for.
pub enum InnerRequestValue {
    /// The object is wanted by the node at `source`.
    ObjectRequest { source: Multiaddr },
    /// The object itself, handed to its new owner.
    ObjectOwnershipSend { value: Vec<u8> },
    /// A question whether the key is known.
    KeySearch,
}

/// A request between nodes about one key.
pub struct DirectoryRequest {
    pub key: Vec<u8>,
    pub request_type: InnerRequestValue,
}

/// The mathematical form of an `InnerRequestValue`.
pub enum InnerRequestValueView {
    ObjectRequest { source: Multiaddr },
    ObjectOwnershipSend { value: Seq<u8> },
    KeySearch,
}

/// The mathematical form of a `DirectoryRequest`.
pub struct DirectoryRequestView {
    pub key: Seq<u8>,
    pub request_type: InnerRequestValueView,
}

impl View for InnerRequestValue {
    type V = InnerRequestValueView;

    open spec fn view(&self) -> InnerRequestValueView {
        match self {
            InnerRequestValue::ObjectRequest { source } => InnerRequestValueView::ObjectRequest { source: *source },
            InnerRequestValue::ObjectOwnershipSend { value } => InnerRequestValueView::ObjectOwnershipSend { value: value@ },
            InnerRequestValue::KeySearch => InnerRequestValueView::KeySearch,
        }
    }
}

impl View for DirectoryRequest {
    type V = DirectoryRequestView;

    open spec fn view(&self) -> DirectoryRequestView {
        DirectoryRequestView { key: self.key@, request_type: self.request_type@ }
    }
}

/// What a response between nodes says.
#[derive(Clone, Copy)]
pub enum InnerResponseValue {
    ReceivedIncomingRequest,
    IsKeyFound(bool),
}

/// A response between nodes about one key.
pub struct DirectoryResponse {
    pub key: Vec<u8>,
    pub response_type: InnerResponseValue,
}

/// The mathematical form of a `DirectoryResponse`.
pub struct DirectoryResponseView {
    pub key: Seq<u8>,
    pub response_type: InnerResponseValue,
}

impl View for DirectoryResponse {
    type V = DirectoryResponseView;

    open spec fn view(&self) -> DirectoryResponseView {
        DirectoryResponseView { key: self.key@, response_type: self.response_type }
    }
}

/// The answer a node sends back for a request from another node.
pub type DirectoryResponseResult = Result<DirectoryResponse, DirectorySpecificErrors>;

/// The mathematical form of a `DirectoryResponseResult`.
pub open spec fn response_result_view(r: DirectoryResponseResult) -> Result<DirectoryResponseView, DirectorySpecificErrorsView> {
    match r {
        Ok(a) => Ok(a@),
        Err(e) => Err(e@),
    }
}

/// The answer to an API read of a key: the object, when this node owns it,
/// or the state of the request that is under way for it.
pub enum GetValueResponse {
    Owner(Vec<u8>),
    Requested(RequestJobState),
}

/// The mathematical form of a `GetValueResponse`.
pub enum GetValueResponseView {
    Owner(Seq<u8>),
    Requested(RequestJobStateView),
}

impl View for GetValueResponse {
    type V = GetValueResponseView;

    open spec fn view(&self) -> GetValueResponseView {
        match self {
            GetValueResponse::Owner(v) => GetValueResponseView::Owner(v@),
            GetValueResponse::Requested(s) => GetValueResponseView::Requested(s@),
        }
    }
}

} // verus!
