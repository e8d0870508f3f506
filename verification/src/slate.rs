//! The dynamic fields rendered onto the identification slate.
//!
//! Rendering itself — template image, font, pixel positions — is the
//! presentation layer's business; this type only fixes which values land in
//! which field.

use crate::config::Defaults;
use vstd::prelude::*;

verus! {

/// The nine text fields of the slate, in template order.
pub struct SlateData<'a> {
    pub titulo: &'a str,
    pub produto: &'a str,
    pub duracao: &'a str,
    pub produtora: &'a str,
    pub agencia: &'a str,
    pub anunciante: &'a str,
    pub diretor: &'a str,
    pub registro: &'a str,
    pub data: &'a str,
}

impl<'a> SlateData<'a> {
    /// Combines the per-job values with the configured defaults: title,
    /// duration, registration and date come from the job, the company
    /// fields from the defaults.
    pub fn new(
        titulo: &'a str,
        duracao: &'a str,
        registro: &'a str,
        data: &'a str,
        defaults: &'a Defaults,
    ) -> (r: Self)
        ensures
            r.titulo@ == titulo@,
            r.duracao@ == duracao@,
            r.registro@ == registro@,
            r.data@ == data@,
            r.produto@ == defaults.produto@,
            r.produtora@ == defaults.produtora@,
            r.agencia@ == defaults.agencia@,
            r.anunciante@ == defaults.anunciante@,
            r.diretor@ == defaults.diretor@,
    {
        SlateData {
            titulo,
            produto: defaults.produto.as_str(),
            duracao,
            produtora: defaults.produtora.as_str(),
            agencia: defaults.agencia.as_str(),
            anunciante: defaults.anunciante.as_str(),
            diretor: defaults.diretor.as_str(),
            registro,
            data,
        }
    }
}

} // verus!
