//! Sector decode dependency chain.
//!
//! A scene is partitioned into sectors. Only the root sector's header is
//! guaranteed to carry the attribute table that descendant sectors need, so
//! the boundary enforces a strict order: a child sector may only be decoded
//! against a root handle whose header carries that table, and the check runs
//! before the sector codec is ever invoked.
//!
//! The host holds decoded sectors in a table of its own and refers to each by
//! an opaque token; a handle records the token together with the one header
//! fact this protocol reads, whether the attribute table is present. The
//! sector codec itself runs host-side, between the two halves of the child
//! decode: `begin_child_decode` gates on the root's attribute table and
//! `finish_child_decode` packages the codec's outcome.

use vstd::prelude::*;
use crate::error::DecodeError;

verus! {

/// Where a handle stands in the sector lifecycle: decoded as the designated
/// root, or decoded as a child against a root's attribute table.
#[derive(Clone, Copy, PartialEq, Eq, Structural, Debug)]
pub enum SectorKind {
    Root,
    Child,
}

/// A handle to one decoded sector owned by the host-side table.
///
/// `token` names the decoded sector in that table; `has_attributes` records
/// whether the sector's header carries the shared attribute table that child
/// decodes depend on.
#[derive(Clone, Copy, PartialEq, Eq, Structural, Debug)]
pub struct SectorHandle {
    pub kind: SectorKind,
    pub token: u64,
    pub has_attributes: bool,
}

/// What the sector codec reports for one decode: the token under which the
/// host stored the decoded sector and whether that sector's header carries an
/// attribute table, or the codec's rejection message.
pub type SectorOutcome = Result<(u64, bool), String>;

/// Permission to run the sector codec for one child decode. A ticket is only
/// minted for a root whose header carries the attribute table, so holding one
/// proves the dependency check passed before the codec was invoked.
pub struct ChildDecodeTicket {
    root_token: u64,
}

impl ChildDecodeTicket {
    /// The token of the root sector whose attribute table the decode uses.
    pub closed spec fn root_token_spec(self) -> u64 {
        self.root_token
    }

    /// The token of the root sector whose attribute table the decode uses.
    pub fn root_token(&self) -> (t: u64)
        ensures
            t == self.root_token_spec(),
    {
        self.root_token
    }
}

/// Package the sector codec's outcome for a root decode.
///
/// A decoded root becomes a root handle carrying the codec's report of its
/// attribute table; a rejection becomes a parser error.
pub fn finish_root_decode(outcome: SectorOutcome) -> (r: Result<SectorHandle, DecodeError>)
    ensures
        outcome matches Ok(d) ==> r == Ok::<SectorHandle, DecodeError>(
            SectorHandle { kind: SectorKind::Root, token: d.0, has_attributes: d.1 },
        ),
        outcome matches Err(m) ==> r == Err::<SectorHandle, DecodeError>(
            DecodeError::Parser { message: m },
        ),
{
    match outcome {
        Ok((token, has_attributes)) => Ok(
            SectorHandle { kind: SectorKind::Root, token, has_attributes },
        ),
        Err(message) => Err(DecodeError::Parser { message }),
    }
}

/// Gate a child decode on the root's attribute table.
///
/// When the root handle's header carries the table, the returned ticket names
/// that root for the codec invocation; when the table is absent the decode
/// fails here, with the dedicated error, before the codec sees a single byte.
pub fn begin_child_decode(root: &SectorHandle) -> (r: Result<ChildDecodeTicket, DecodeError>)
    ensures
        root.has_attributes ==> (r matches Ok(t) && t.root_token_spec() == root.token),
        !root.has_attributes ==> r == Err::<ChildDecodeTicket, DecodeError>(
            DecodeError::MissingAttributes,
        ),
{
    if root.has_attributes {
        Ok(ChildDecodeTicket { root_token: root.token })
    } else {
        Err(DecodeError::MissingAttributes)
    }
}

/// Package the sector codec's outcome for a gated child decode.
///
/// Consuming the ticket ties this call to a dependency check that already
/// passed; a decoded child becomes an independent child handle, and a
/// rejection becomes a parser error.
pub fn finish_child_decode(ticket: ChildDecodeTicket, outcome: SectorOutcome) -> (r: Result<
    SectorHandle,
    DecodeError,
>)
    ensures
        outcome matches Ok(d) ==> r == Ok::<SectorHandle, DecodeError>(
            SectorHandle { kind: SectorKind::Child, token: d.0, has_attributes: d.1 },
        ),
        outcome matches Err(m) ==> r == Err::<SectorHandle, DecodeError>(
            DecodeError::Parser { message: m },
        ),
{
    let _ = ticket;
    match outcome {
        Ok((token, has_attributes)) => Ok(
            SectorHandle { kind: SectorKind::Child, token, has_attributes },
        ),
        Err(message) => Err(DecodeError::Parser { message }),
    }
}

/// The whole child-decode protocol as one function of the root's state and
/// the codec's outcome: the dependency gate, then the packaging of the
/// outcome.
pub open spec fn spec_child_decode(root: SectorHandle, outcome: SectorOutcome) -> Result<
    SectorHandle,
    DecodeError,
> {
    if !root.has_attributes {
        Err(DecodeError::MissingAttributes)
    } else {
        match outcome {
            Ok(d) => Ok(SectorHandle { kind: SectorKind::Child, token: d.0, has_attributes: d.1 }),
            Err(m) => Err(DecodeError::Parser { message: m }),
        }
    }
}

/// Run the two halves of the child decode against an outcome already in hand.
///
/// This is the protocol the host runs with the codec in the middle; stated
/// here over a fixed outcome, it proves the two halves compose to
/// `spec_child_decode`.
pub fn child_decode_protocol(root: &SectorHandle, outcome: SectorOutcome) -> (r: Result<
    SectorHandle,
    DecodeError,
>)
    ensures
        r == spec_child_decode(*root, outcome),
{
    match begin_child_decode(root) {
        Ok(ticket) => finish_child_decode(ticket, outcome),
        Err(e) => Err(e),
    }
}

/// Child decoding is deterministic in everything this boundary controls: the
/// same root state and the same codec outcome give structurally equal
/// results. (That the codec itself maps equal byte streams to equal outcomes
/// is the external collaborator's own contract.)
pub proof fn lemma_child_decode_deterministic(
    root1: SectorHandle,
    root2: SectorHandle,
    o1: SectorOutcome,
    o2: SectorOutcome,
)
    requires
        root1 == root2,
        o1 == o2,
    ensures
        spec_child_decode(root1, o1) == spec_child_decode(root2, o2),
{
}

/// A child decode against a root without an attribute table fails with the
/// dedicated error and never reaches the codec: no ticket — the one value
/// that admits a codec invocation — exists for such a root.
pub proof fn lemma_missing_attributes_blocks_codec(root: SectorHandle, outcome: SectorOutcome)
    requires
        !root.has_attributes,
    ensures
        spec_child_decode(root, outcome) == Err::<SectorHandle, DecodeError>(
            DecodeError::MissingAttributes,
        ),
{
}

} // verus!
