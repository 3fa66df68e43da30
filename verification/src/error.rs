use vstd::prelude::*;

verus! {

/// An error produced while decoding a dynamic workbook description.
///
/// Every failure of the translation layer is reported as one of these,
/// carrying a human-readable message that names the offending value.
#[derive(Debug)]
pub struct NodeXlsxError {
    pub message: String,
}

impl NodeXlsxError {
    pub fn new(message: String) -> (r: Self)
        ensures
            r.message == message,
    {
        Self { message }
    }

    /// The human-readable description of the failure.
    pub fn message(&self) -> (r: &String)
        ensures
            r == &self.message,
    {
        &self.message
    }
}

/// Relates an executable decode result to its specification-level mirror,
/// which carries only the view of the error message.
pub open spec fn matches_spec<T>(r: Result<T, NodeXlsxError>, s: Result<T, Seq<char>>) -> bool {
    match r {
        Ok(v) => s matches Ok(w) && v == w,
        Err(e) => s matches Err(m) && e.message@ == m,
    }
}

} // verus!
