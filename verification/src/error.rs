//! Error kinds reported by the encode-plan pipeline.

use crate::numstr::spec_u64_string;
use crate::numstr::u64_to_string;
use vstd::prelude::*;

verus! {

/// What can go wrong while preparing or running an encode job.
#[derive(Debug)]
pub enum EncoderError {
    /// The external encoder or prober is not installed.
    FfmpegNotFound,
    /// The source could not be probed, or a required probe field is missing.
    FfprobeError(String),
    /// A registration code was extracted but is absent from the table.
    CodeNotFound(u32),
    /// The slate template image was not found in any candidate location.
    TemplateNotFound(String),
    /// The external encoder ran and failed.
    EncodingFailed(String),
    /// A configuration file could not be read or parsed.
    ConfigError(String),
}

/// The operator-facing message for each error kind.
pub open spec fn spec_error_message(e: EncoderError) -> Seq<char> {
    match e {
        EncoderError::FfmpegNotFound => "FFmpeg/FFprobe não encontrado no PATH"@,
        EncoderError::FfprobeError(msg) => "Erro ao ler metadados do vídeo: "@ + msg@,
        EncoderError::CodeNotFound(code) => "Código "@ + spec_u64_string(code as nat)
            + " não encontrado na tabela de registros"@,
        EncoderError::TemplateNotFound(path) => "Template da claquete não encontrado: "@ + path@,
        EncoderError::EncodingFailed(msg) => "Falha no encoding: "@ + msg@,
        EncoderError::ConfigError(msg) => "Erro na configuração: "@ + msg@,
    }
}

impl EncoderError {
    /// Renders the error for display to the operator.
    pub fn message(&self) -> (r: String)
        ensures
            r@ == spec_error_message(*self),
    {
        match self {
            EncoderError::FfmpegNotFound => String::from_str(
                "FFmpeg/FFprobe não encontrado no PATH",
            ),
            EncoderError::FfprobeError(msg) => {
                let mut s = String::from_str("Erro ao ler metadados do vídeo: ");
                s.append(msg.as_str());
                s
            },
            EncoderError::CodeNotFound(code) => {
                let mut s = String::from_str("Código ");
                let digits = u64_to_string(*code as u64);
                s.append(digits.as_str());
                s.append(" não encontrado na tabela de registros");
                s
            },
            EncoderError::TemplateNotFound(path) => {
                let mut s = String::from_str("Template da claquete não encontrado: ");
                s.append(path.as_str());
                s
            },
            EncoderError::EncodingFailed(msg) => {
                let mut s = String::from_str("Falha no encoding: ");
                s.append(msg.as_str());
                s
            },
            EncoderError::ConfigError(msg) => {
                let mut s = String::from_str("Erro na configuração: ");
                s.append(msg.as_str());
                s
            },
        }
    }
}

} // verus!
