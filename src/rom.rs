//! Program images.

use vstd::prelude::*;
use crate::machine::{Fault, PROGRAM_CAPACITY};

verus! {

/// An image followed by zero bytes up to the size of program space.
pub open spec fn padded(image: Seq<u8>) -> Seq<u8> {
    image + Seq::new((PROGRAM_CAPACITY - image.len()) as nat, |k: int| 0u8)
}

/// A program image padded to the size of program space.
#[derive(Clone, Copy)]
pub struct ROM {
    /// The image followed by zero bytes.
    pub data: [u8; 3584],
    /// Length of the image itself.
    pub size: usize,
}

impl ROM {
    /// Wraps an image for loading, or reports that it does not fit in
    /// program space.
    pub fn new(image: &[u8]) -> (r: Result<ROM, Fault>)
        ensures
            match r {
                Ok(rom) => image@.len() <= PROGRAM_CAPACITY && rom.size == image@.len() && rom.data@
                    == padded(image@),
                Err(e) => image@.len() > PROGRAM_CAPACITY && e == Fault::ImageTooLarge {
                    len: image@.len() as usize,
                },
            },
    {
        let len = image.len();
        if len > PROGRAM_CAPACITY {
            return Err(Fault::ImageTooLarge { len });
        }
        let mut data = [0u8; 3584];
        let mut k: usize = 0;
        while k < len
            invariant
                len == image@.len() <= PROGRAM_CAPACITY,
                k <= len,
                data@.len() == PROGRAM_CAPACITY,
                forall|j: int| 0 <= j < k ==> #[trigger] data@[j] == image@[j],
                forall|j: int| k <= j < PROGRAM_CAPACITY ==> #[trigger] data@[j] == 0u8,
            decreases len - k,
        {
            data[k] = image[k];
            k += 1;
        }
        assert(data@ =~= padded(image@));
        Ok(ROM { data, size: len })
    }
}

} // verus!
