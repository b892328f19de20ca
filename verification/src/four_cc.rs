//! Four-character codes that name RIFF and SMF chunks.

use vstd::prelude::*;

verus! {

/// A four-character code.
#[derive(Clone, Copy, Debug, PartialEq, Eq, Structural)]
pub struct FourCC {
    pub b0: u8,
    pub b1: u8,
    pub b2: u8,
    pub b3: u8,
}

/// The code spelled by four bytes.
pub open spec fn code(b0: u8, b1: u8, b2: u8, b3: u8) -> FourCC {
    FourCC { b0, b1, b2, b3 }
}

impl FourCC {
    /// The four bytes as a sequence.
    pub open spec fn spec_bytes(&self) -> Seq<u8> {
        seq![self.b0, self.b1, self.b2, self.b3]
    }

    /// Builds a code from its four bytes.
    pub fn from_bytes(bytes: [u8; 4]) -> (r: FourCC)
        ensures
            r.spec_bytes() == bytes@,
    {
        let r = FourCC { b0: bytes[0], b1: bytes[1], b2: bytes[2], b3: bytes[3] };
        assert(r.spec_bytes() =~= bytes@);
        r
    }

    /// The four bytes of the code.
    pub fn as_bytes(&self) -> (r: [u8; 4])
        ensures
            r@ == self.spec_bytes(),
    {
        let r = [self.b0, self.b1, self.b2, self.b3];
        assert(r@ =~= self.spec_bytes());
        r
    }

    /// True when the code spells the given four bytes.
    pub fn is(&self, b0: u8, b1: u8, b2: u8, b3: u8) -> (r: bool)
        ensures
            r == (self.spec_bytes() == seq![b0, b1, b2, b3]),
    {
        let r = self.b0 == b0 && self.b1 == b1 && self.b2 == b2 && self.b3 == b3;
        proof {
            if self.spec_bytes() == seq![b0, b1, b2, b3] {
                assert(self.spec_bytes()[0] == b0);
                assert(self.spec_bytes()[1] == b1);
                assert(self.spec_bytes()[2] == b2);
                assert(self.spec_bytes()[3] == b3);
            }
            if r {
                assert(self.spec_bytes() =~= seq![b0, b1, b2, b3]);
            }
        }
        r
    }
}

} // verus!
