//! Static collisions: how a moving receiver responds when pushed out of a static provider.

use vstd::prelude::*;

verus! {

/// How a static provider treats receivers that hit it.
#[derive(Debug, Clone, Copy, PartialEq, Eq, Structural, Hash)]
pub enum StaticTxKind {
    /// Receivers bounce off it.
    Normal,
    /// Receivers stick to it.
    Sticky,
}

/// How a static receiver responds to hitting a provider.
#[derive(Debug, Clone, Copy, PartialEq, Eq, Structural, Hash)]
pub enum StaticRxKind {
    /// Responds as the provider says.
    Normal,
    /// Stops dead.
    Stop,
    /// Tries to move perpendicularly around the provider, pushed by this multiple of the push-out.
    GoAround { mult: i32 },
}

/// What happens to the velocity of a receiver pushed out of a provider.
#[derive(Debug, Clone, Copy, PartialEq, Eq, Structural)]
pub enum StaticResponse {
    /// The velocity becomes zero.
    Stop,
    /// The velocity gains the push-out turned a quarter, times `mult`.
    GoAround { mult: i32 },
    /// The velocity bounces off with some springiness and friction.
    Bounce,
    /// The velocity becomes zero and the receiver sticks to the provider.
    Stick,
}

/// The response to a static collision: a receiver's own kind decides first (stopping, going
/// around); a normal receiver bounces off normal providers and sticks to sticky ones.
pub fn static_response(tx_kind: StaticTxKind, rx_kind: StaticRxKind) -> (r: StaticResponse)
    ensures
        r == (match rx_kind {
            StaticRxKind::Stop => StaticResponse::Stop,
            StaticRxKind::GoAround { mult } => StaticResponse::GoAround { mult },
            StaticRxKind::Normal => match tx_kind {
                StaticTxKind::Normal => StaticResponse::Bounce,
                StaticTxKind::Sticky => StaticResponse::Stick,
            },
        }),
{
    match (tx_kind, rx_kind) {
        (_, StaticRxKind::Stop) => StaticResponse::Stop,
        (_, StaticRxKind::GoAround { mult }) => StaticResponse::GoAround { mult },
        (StaticTxKind::Normal, StaticRxKind::Normal) => StaticResponse::Bounce,
        (StaticTxKind::Sticky, StaticRxKind::Normal) => StaticResponse::Stick,
    }
}

} // verus!
