//! Reusable text buffers for the two control-file paths and for what is
//! read back from them.

use vstd::prelude::*;

verus! {

/// A pair of owned strings the loop reuses tick after tick: one for the
/// derived enable-file path, one for file content read back.
pub struct FileBuffer {
    pub path_buf: String,
    pub content_buf: String,
}

impl FileBuffer {
    /// Both buffers start empty.
    pub fn new() -> (b: FileBuffer)
        ensures
            b.path_buf@ == Seq::<char>::empty(),
            b.content_buf@ == Seq::<char>::empty(),
    {
        FileBuffer { path_buf: String::new(), content_buf: String::new() }
    }

    /// Derive the enable-file path that accompanies a duty-file path: the
    /// same path with the fixed suffix appended.
    pub fn make_enable_path(&mut self, pwm_path: &str)
        ensures
            final(self).path_buf@ == pwm_path@ + "_enable"@,
            final(self).content_buf == old(self).content_buf,
    {
        let mut p = String::new();
        p.append(pwm_path);
        p.append("_enable");
        self.path_buf = p;
    }
}

} // verus!
