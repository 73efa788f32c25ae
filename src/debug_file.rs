use vstd::prelude::*;
use crate::units::safe_truncate_i64_to_u32;

verus! {

/// A whole file read into memory, with its size in bytes.
pub struct DebugPlatformReadFileResult {
    pub memory: Vec<u8>,
    pub size: u32,
}

impl DebugPlatformReadFileResult {
    /// The result of reading a file of `file_size` bytes that delivered
    /// `contents`; `None` where the read came up short or ran long.
    pub fn from_read(file_size: i64, contents: Vec<u8>) -> (r: Option<DebugPlatformReadFileResult>)
        requires
            0 <= file_size < u32::MAX,
        ensures
            r is Some <==> contents@.len() == file_size,
            r matches Some(f) ==> f.memory@ == contents@ && f.size == file_size,
    {
        let size = safe_truncate_i64_to_u32(file_size);
        if contents.len() != size as usize {
            None
        } else {
            Some(DebugPlatformReadFileResult { memory: contents, size })
        }
    }
}

} // verus!
