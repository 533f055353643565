//! The record a directory scan yields: one discovered PDF, identified for
//! display purposes by its file name alone.

use vstd::prelude::*;

verus! {

/// One discovered PDF file.
#[derive(Debug)]
pub struct PdfFile {
    pub file_name: String,
}

impl Clone for PdfFile {
    fn clone(&self) -> (r: Self)
        ensures
            r == *self,
    {
        PdfFile { file_name: self.file_name.clone() }
    }
}

} // verus!
