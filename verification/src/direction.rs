//! The direction tag: which of the four logical channels a packet belongs to.

use vstd::prelude::*;

verus! {

/// One of the four logical channels between the client and the two servers.
///
/// Each variant carries a single-byte code on the wire: 0, 1, 2, 3 in
/// declaration order. Decoding is total: every byte value at or above 3
/// deliberately folds to `FromLoginserver` rather than failing.
#[derive(Copy, Clone, PartialEq, Eq, Structural, Debug)]
pub enum Direction {
    ToGameserver,
    FromGameserver,
    ToLoginserver,
    FromLoginserver,
}

impl Direction {
    /// The variant a byte code decodes to: 0, 1 and 2 name their channel,
    /// every other value folds to `FromLoginserver`.
    pub open spec fn spec_from_byte(b: u8) -> Direction {
        if b == 0 {
            Direction::ToGameserver
        } else if b == 1 {
            Direction::FromGameserver
        } else if b == 2 {
            Direction::ToLoginserver
        } else {
            Direction::FromLoginserver
        }
    }

    /// The canonical byte code of each variant.
    pub open spec fn spec_to_byte(self) -> u8 {
        match self {
            Direction::ToGameserver => 0,
            Direction::FromGameserver => 1,
            Direction::ToLoginserver => 2,
            Direction::FromLoginserver => 3,
        }
    }

    /// Decodes a byte code. Total: never fails, whatever the byte.
    pub fn from_byte(b: u8) -> (d: Direction)
        ensures
            d == Direction::spec_from_byte(b),
    {
        match b {
            0 => Direction::ToGameserver,
            1 => Direction::FromGameserver,
            2 => Direction::ToLoginserver,
            _ => Direction::FromLoginserver,
        }
    }

    /// Encodes the variant as its canonical byte code.
    pub fn to_byte(self) -> (b: u8)
        ensures
            b == self.spec_to_byte(),
    {
        match self {
            Direction::ToGameserver => 0,
            Direction::FromGameserver => 1,
            Direction::ToLoginserver => 2,
            Direction::FromLoginserver => 3,
        }
    }

    /// The fixed human-readable label of each variant.
    pub open spec fn spec_label(self) -> Seq<char> {
        match self {
            Direction::ToGameserver => "C  -> GS"@,
            Direction::FromGameserver => "C <-  GS"@,
            Direction::ToLoginserver => "C  -> LS"@,
            Direction::FromLoginserver => "C <-  LS"@,
        }
    }

    /// Renders the fixed label, for human-readable logging.
    pub fn display(self) -> (s: String)
        ensures
            s@ == self.spec_label(),
    {
        match self {
            Direction::ToGameserver => "C  -> GS".to_owned(),
            Direction::FromGameserver => "C <-  GS".to_owned(),
            Direction::ToLoginserver => "C  -> LS".to_owned(),
            Direction::FromLoginserver => "C <-  LS".to_owned(),
        }
    }
}

/// Law: the byte mapping is total, and `to_byte` inverts `from_byte` exactly
/// on the four canonical codes; every code at or above 3 decodes to
/// `FromLoginserver`.
pub proof fn lemma_direction_code_round_trip(b: u8)
    ensures
        Direction::spec_from_byte(b).spec_to_byte() == b <==> b <= 3,
        b >= 3 ==> Direction::spec_from_byte(b) == Direction::FromLoginserver,
{
}

/// Law: decoding the canonical code of any variant yields that variant back.
pub proof fn lemma_direction_variant_round_trip(d: Direction)
    ensures
        Direction::spec_from_byte(d.spec_to_byte()) == d,
{
}

} // verus!
