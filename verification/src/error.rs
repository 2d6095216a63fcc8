//! The ways an export can end without an artifact.

use vstd::prelude::*;

verus! {

/// Why an export stopped.
#[derive(Debug, PartialEq, Eq)]
pub enum ExportError {
    /// The cancellation flag was seen set at a unit of work.
    CancellationRequested,
    /// A read, write or rename failed; the text is the system's own.
    Io(String),
    /// No browser able to print to PDF without a window was found.
    RenderingEngineNotFound,
    /// The renderer exited with a failure or left no output behind.
    ExternalProcessFailure,
    /// The produced PDF could not be parsed or written back.
    PdfStructure(String),
}

impl ExportError {
    /// The text shown to the user for this error.
    pub open spec fn message_text(self) -> Seq<char> {
        match self {
            ExportError::CancellationRequested => "İşlem iptal edildi"@,
            ExportError::Io(detail) => detail@,
            ExportError::RenderingEngineNotFound =>
                "PDF oluşturulamadı: Headless modda çalışacak Chrome/Edge bulunamadı."@,
            ExportError::ExternalProcessFailure => "PDF oluşturulamadı"@,
            ExportError::PdfStructure(detail) => detail@,
        }
    }

    pub fn message(&self) -> (text: String)
        ensures
            text@ == self.message_text(),
    {
        match self {
            ExportError::CancellationRequested => "İşlem iptal edildi".to_owned(),
            ExportError::Io(detail) => detail.clone(),
            ExportError::RenderingEngineNotFound =>
                "PDF oluşturulamadı: Headless modda çalışacak Chrome/Edge bulunamadı.".to_owned(),
            ExportError::ExternalProcessFailure => "PDF oluşturulamadı".to_owned(),
            ExportError::PdfStructure(detail) => detail.clone(),
        }
    }
}

} // verus!
