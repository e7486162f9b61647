//! The commands the agent receives on its command topic, as JSON objects
//! discriminated by their `action` field.
use vstd::prelude::*;

verus! {

/// A command received on the command topic.
pub enum Comando {
    /// `{"action": "listPrinters", "responseTopic": ...}`
    ListPrinters { response_topic: String },
    /// `{"action": "print", "responseTopic": ..., "printerName": ..., "fileToPrint": <Base64 PDF>}`
    Print { response_topic: String, printer_name: String, file_to_print: String },
    /// `{"action": "update-air", "responseTopic": ..., "ambiente": <optional>}`
    UpdateAir { response_topic: String, ambiente: Option<String> },
}

/// What can still be read from a message that is no valid command: its
/// `responseTopic`, when it has one.
pub struct FallbackComando {
    pub response_topic: Option<String>,
}

} // verus!
