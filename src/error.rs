use vstd::prelude::*;

verus! {

/// A field that the upstream node's JSON response was expected to carry.
#[derive(Debug, Clone, Copy, PartialEq, Eq, Structural)]
pub enum UpstreamField {
    /// `height` of a get-height response.
    Height,
    /// `result.blocktemplate_blob` of a get-block-template response.
    BlockTemplateBlob,
    /// `result.seed_hash` of a get-block-template response.
    SeedHash,
    /// `result.status` of a submit-block response.
    ResultStatus,
}

/// A field that the anchor node's reply was expected to carry.
#[derive(Debug, Clone, Copy, PartialEq, Eq, Structural)]
pub enum AnchorField {
    /// Chain metadata of a tip-info reply.
    Metadata,
    /// The template of a new-block-template reply.
    NewBlockTemplate,
    /// The mining data of a new-block reply.
    MiningData,
}

/// A call made to the anchor node.
#[derive(Debug, Clone, Copy, PartialEq, Eq, Structural)]
pub enum AnchorCall {
    GetTipInfo,
    GetNewBlockTemplate,
    GetNewBlock,
    SubmitBlock,
}

/// Failures of the proxy core. None of them is retried.
#[derive(Debug, Clone, Copy, PartialEq, Eq, Structural)]
pub enum ProxyError {
    /// The upstream node could not be reached.
    UpstreamUnreachable,
    /// The upstream node's response lacks a field or has it in the wrong shape.
    MalformedUpstreamResponse(UpstreamField),
    /// The upstream node did not accept a submitted block.
    UpstreamRejected,
    /// A call to the anchor node failed in transport or protocol.
    AnchorCallFailed(AnchorCall),
    /// The anchor node replied without a field the proxy needs.
    MalformedAnchorResponse(AnchorField),
    /// The miner's request body is not the JSON that its handler reads.
    MalformedRequest,
    /// An operation needed pending work and none was held.
    NoPendingWork,
    /// A block blob could not be decoded.
    Decode,
    /// A proof-of-work payload could not be encoded.
    Encode,
}

/// A field the upstream node's reply must carry: its absence is a
/// malformed-response failure that names the field.
pub fn require_upstream_field<T>(value: Option<T>, field: UpstreamField) -> (r: Result<T, ProxyError>)
    ensures
        match value {
            Some(v) => r == Ok::<T, ProxyError>(v),
            None => r == Err::<T, ProxyError>(ProxyError::MalformedUpstreamResponse(field)),
        },
{
    match value {
        Some(v) => Ok(v),
        None => Err(ProxyError::MalformedUpstreamResponse(field)),
    }
}

/// A field the anchor node's reply must carry: its absence is a
/// malformed-response failure, told apart from a failed call.
pub fn require_anchor_field<T>(value: Option<T>, field: AnchorField) -> (r: Result<T, ProxyError>)
    ensures
        match value {
            Some(v) => r == Ok::<T, ProxyError>(v),
            None => r == Err::<T, ProxyError>(ProxyError::MalformedAnchorResponse(field)),
        },
{
    match value {
        Some(v) => Ok(v),
        None => Err(ProxyError::MalformedAnchorResponse(field)),
    }
}

/// The outcome of a call to the anchor node: any failure of the call itself
/// becomes a failed-call error naming the operation.
pub fn anchor_call<T, E>(outcome: Result<T, E>, call: AnchorCall) -> (r: Result<T, ProxyError>)
    ensures
        match outcome {
            Ok(v) => r == Ok::<T, ProxyError>(v),
            Err(_) => r == Err::<T, ProxyError>(ProxyError::AnchorCallFailed(call)),
        },
{
    match outcome {
        Ok(v) => Ok(v),
        Err(_) => Err(ProxyError::AnchorCallFailed(call)),
    }
}

} // verus!
