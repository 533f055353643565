//! Turns the entries of one directory scan into PDF records. The caller reads
//! the directory and hands over each entry's file name — `None` where the name
//! could not be decoded as text — and this module keeps exactly the entries
//! whose name ends with the literal suffix `.pdf`, in scan order.

use vstd::prelude::*;
use vstd::string::StrSliceExecFns;
use vstd::string::StringExecFns;
use crate::pdf_file::PdfFile;

verus! {

/// Whether a file name carries the `.pdf` suffix: its last four characters
/// are `.`, `p`, `d`, `f`.
pub open spec fn is_pdf_name(s: Seq<char>) -> bool {
    &&& s.len() >= 4
    &&& s[s.len() - 4] == '.'
    &&& s[s.len() - 3] == 'p'
    &&& s[s.len() - 2] == 'd'
    &&& s[s.len() - 1] == 'f'
}

/// Whether a scanned entry is kept: its name decoded and carries the suffix.
pub open spec fn entry_kept(entry: Option<String>) -> bool {
    entry matches Some(name) && is_pdf_name(name@)
}

/// The records one scan yields: the kept entries, in scan order, each turned
/// into a `PdfFile` of its name.
pub open spec fn pdf_records_of(entries: Seq<Option<String>>) -> Seq<PdfFile>
    decreases entries.len(),
{
    if entries.len() == 0 {
        Seq::empty()
    } else {
        let rest = pdf_records_of(entries.drop_last());
        match entries.last() {
            Some(name) => if is_pdf_name(name@) {
                rest.push(PdfFile { file_name: name })
            } else {
                rest
            },
            None => rest,
        }
    }
}

/// Every record a scan yields carries the `.pdf` suffix.
pub proof fn lemma_records_are_pdf(entries: Seq<Option<String>>)
    ensures
        forall|i: int|
            0 <= i < pdf_records_of(entries).len() ==> is_pdf_name(
                #[trigger] pdf_records_of(entries)[i].file_name@,
            ),
    decreases entries.len(),
{
    if entries.len() > 0 {
        lemma_records_are_pdf(entries.drop_last());
        let rest = pdf_records_of(entries.drop_last());
        if entries.last() matches Some(name) && is_pdf_name(name@) {
            let whole = rest.push(PdfFile { file_name: entries.last()->Some_0 });
            assert(pdf_records_of(entries) == whole);
            assert forall|i: int| 0 <= i < whole.len() implies is_pdf_name(
                whole[i].file_name@,
            ) by {
                if i < rest.len() {
                    assert(whole[i] == rest[i]);
                }
            }
        }
    }
}

/// Builds `PdfFile` values out of directory entries.
pub struct PdfFileLoader;

impl Default for PdfFileLoader {
    fn default() -> (r: Self) {
        Self::new()
    }
}

impl PdfFileLoader {
    pub fn new() -> (r: Self) {
        Self {  }
    }

    /// Whether an entry would be kept: its name decoded and ends with `.pdf`.
    /// An entry whose name could not be decoded is never kept.
    pub fn is_pdf(&self, entry_name: &Option<String>) -> (r: bool)
        ensures
            r == entry_kept(*entry_name),
    {
        match entry_name {
            Some(name) => {
                let n = name.as_str().unicode_len();
                if n < 4 {
                    return false;
                }
                let s = name.as_str();
                s.get_char(n - 4) == '.' && s.get_char(n - 3) == 'p' && s.get_char(n - 2) == 'd'
                    && s.get_char(n - 1) == 'f'
            },
            None => false,
        }
    }

    /// The record one kept entry becomes. A name that could not be decoded is
    /// recovered with a placeholder label rather than failing the scan.
    fn to_pdf_file(&self, entry_name: Option<String>) -> (r: PdfFile)
        ensures
            entry_name matches Some(name) ==> r == (PdfFile { file_name: name }),
            entry_name is None ==> r.file_name@ == "Invalid file name"@,
    {
        match entry_name {
            Some(name) => PdfFile { file_name: name },
            None => PdfFile { file_name: String::from_str("Invalid file name") },
        }
    }

    /// One whole scan: keeps, in order, exactly the entries whose name ends
    /// with `.pdf`, as `pdf_records_of` states.
    pub fn load_files(&self, entries: Vec<Option<String>>) -> (r: Vec<PdfFile>)
        ensures
            r@ == pdf_records_of(entries@),
    {
        let mut result: Vec<PdfFile> = Vec::new();
        let n = entries.len();
        let mut i: usize = 0;
        while i < n
            invariant
                n == entries@.len(),
                i <= n,
                result@ == pdf_records_of(entries@.subrange(0, i as int)),
            decreases n - i,
        {
            proof {
                assert(entries@.subrange(0, i + 1).drop_last() =~= entries@.subrange(0, i as int));
                assert(entries@.subrange(0, i + 1).last() == entries@[i as int]);
            }
            if self.is_pdf(&entries[i]) {
                let kept = match &entries[i] {
                    Some(name) => Some(name.clone()),
                    None => None,
                };
                let record = self.to_pdf_file(kept);
                result.push(record);
            }
            i = i + 1;
        }
        proof {
            assert(entries@.subrange(0, n as int) =~= entries@);
        }
        result
    }
}

} // verus!
