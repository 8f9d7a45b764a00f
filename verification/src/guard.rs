//! The check that a recipient can receive an asset: a recipient that hosts
//! code is asked, and has to answer with the acknowledgment of the call it
//! got.

use crate::address::{zero_address, Address};
use vstd::prelude::*;

verus! {

/// The kinds of question a recipient can be asked.
#[derive(Clone, Copy, Debug, PartialEq, Eq, Structural)]
pub enum Shape {
    /// One non-fungible token arrived.
    Token,
    /// An amount of one id of a multi-token arrived.
    Single,
    /// Amounts of several ids of a multi-token arrived.
    Batch,
}

impl Shape {
    /// The four bytes with which a recipient acknowledges a question of
    /// this kind: the selector of the entry point that was called.
    pub open spec fn acknowledgment_bytes(self) -> Seq<u8> {
        match self {
            Shape::Token => seq![0x15u8, 0x0bu8, 0x7au8, 0x02u8],
            Shape::Single => seq![0xf2u8, 0x3au8, 0x6eu8, 0x61u8],
            Shape::Batch => seq![0xbcu8, 0x19u8, 0x7cu8, 0x81u8],
        }
    }

    /// The text whose selector is the acknowledgment.
    pub fn entry_point(&self) -> (r: &'static str)
        ensures
            r@ == (match self {
                Shape::Token => "onERC721Received(address,address,uint256,bytes)"@,
                Shape::Single => "onERC1155Received(address,address,uint256,uint256,bytes)"@,
                Shape::Batch => "onERC1155BatchReceived(address,address,uint256[],uint256[],bytes)"@,
            }),
    {
        match self {
            Shape::Token => "onERC721Received(address,address,uint256,bytes)",
            Shape::Single => "onERC1155Received(address,address,uint256,uint256,bytes)",
            Shape::Batch => "onERC1155BatchReceived(address,address,uint256[],uint256[],bytes)",
        }
    }

    pub fn acknowledgment(&self) -> (r: [u8; 4])
        ensures
            r@ == self.acknowledgment_bytes(),
    {
        let r = match self {
            Shape::Token => [0x15u8, 0x0bu8, 0x7au8, 0x02u8],
            Shape::Single => [0xf2u8, 0x3au8, 0x6eu8, 0x61u8],
            Shape::Batch => [0xbcu8, 0x19u8, 0x7cu8, 0x81u8],
        };
        assert(r@ =~= self.acknowledgment_bytes());
        r
    }
}

/// What has to happen before a transfer to a recipient may report success.
#[derive(Clone, Copy, Debug, PartialEq, Eq, Structural)]
pub enum Guard {
    /// The recipient hosts no code and is not the zero address: it can
    /// always receive, and is not asked.
    Accept,
    /// The recipient hosts code: it has to be asked.
    Ask,
    /// The recipient hosts no code and is the zero address: it cannot receive.
    Refuse,
}

/// The decision for a recipient.
pub open spec fn guard_of(to: Address, to_has_code: bool) -> Guard {
    if to_has_code {
        Guard::Ask
    } else if to == zero_address() {
        Guard::Refuse
    } else {
        Guard::Accept
    }
}

/// Decides whether a recipient is accepted as it is, has to be asked, or
/// is refused.
pub fn guard(to: &Address, to_has_code: bool) -> (r: Guard)
    ensures
        r == guard_of(*to, to_has_code),
{
    if to_has_code {
        Guard::Ask
    } else if to.is_zero() {
        Guard::Refuse
    } else {
        Guard::Accept
    }
}

/// Whether a reply acknowledges a question of the given kind. `None`
/// stands for a call that failed.
pub open spec fn acknowledges(shape: Shape, reply: Option<[u8; 4]>) -> bool {
    reply.is_some() && reply.unwrap()@ == shape.acknowledgment_bytes()
}

/// Tells whether the recipient acknowledged: only the exact four bytes of
/// the question's kind count; any other reply, and a failed call, do not.
pub fn acknowledged(shape: Shape, reply: Option<[u8; 4]>) -> (r: bool)
    ensures
        r == acknowledges(shape, reply),
{
    match reply {
        Some(bytes) => {
            let expected = shape.acknowledgment();
            let same = bytes[0] == expected[0] && bytes[1] == expected[1] && bytes[2] == expected[2]
                && bytes[3] == expected[3];
            assert(same == (bytes@ =~= expected@));
            same
        },
        None => false,
    }
}

} // verus!
