//! Simple dialogs through `zenity`.
//!
//! `zenity` is run as a subprocess instead of linking GTK, so the daemon
//! builds without any GTK headers. Running the process (and blocking on the
//! user) happens outside the library; this module decides the command lines
//! and what an answer means.

use vstd::prelude::*;
use crate::text::{trim, trim_str};

verus! {

/// What `String::from_utf8_lossy` makes of `bytes`.
pub uninterp spec fn utf8_lossy(bytes: Seq<u8>) -> Seq<char>;

/// `String::from_utf8_lossy`: decodes `bytes` as UTF-8, putting U+FFFD in
/// place of invalid sequences. Stated: the result is the named decoding of
/// the bytes, and on valid UTF-8 it is the plain decoding.
#[verifier::external_body]
fn decode_lossy(bytes: &[u8]) -> (r: String)
    ensures
        r@ == utf8_lossy(bytes@),
        vstd::utf8::valid_utf8(bytes@) ==> r@ == vstd::utf8::decode_utf8(bytes@),
{
    String::from_utf8_lossy(bytes).into_owned()
}

/// The text `zenity` printed, when it exited successfully: its standard
/// output decoded and trimmed. A non-zero exit status means Cancel or a
/// closed window, which gives `None`.
pub fn resposta(sucesso: bool, saida: &[u8]) -> (r: Option<String>)
    ensures
        !sucesso ==> r is None,
        sucesso ==> (r matches Some(t) && t@ == trim(utf8_lossy(saida@))),
{
    if !sucesso {
        return None;
    }
    let texto = decode_lossy(saida);
    Some(trim_str(texto.as_str()))
}

/// The answer of a text entry box: `None` when the user cancelled or left
/// it empty, otherwise the trimmed text.
pub fn entrada(resposta: Option<String>) -> (r: Option<String>)
    ensures
        match resposta {
            None => r is None,
            Some(t) => if trim(t@).len() == 0 {
                r is None
            } else {
                r matches Some(v) && v@ == trim(t@)
            },
        },
{
    match resposta {
        None => None,
        Some(t) => {
            let r = trim_str(t.as_str());
            if r.as_str().is_empty() {
                None
            } else {
                Some(r)
            }
        },
    }
}

/// Views of a list of strings.
pub open spec fn views(v: Seq<String>) -> Seq<Seq<char>> {
    v.map_values(|s: String| s@)
}

/// The `zenity` arguments of a text entry box.
pub open spec fn entry_args(titulo: Seq<char>, texto: Seq<char>, valor_atual: Seq<char>) -> Seq<
    Seq<char>,
> {
    seq!["--entry"@, "--title"@, titulo, "--text"@, texto, "--entry-text"@, valor_atual]
}

/// Arguments of `zenity` for a text entry box titled `titulo`, asking
/// `texto`, prefilled with `valor_atual`.
pub fn argumentos_entrada(titulo: &str, texto: &str, valor_atual: &str) -> (r: Vec<String>)
    ensures
        views(r@) == entry_args(titulo@, texto@, valor_atual@),
{
    let mut r: Vec<String> = Vec::new();
    r.push(String::from_str("--entry"));
    r.push(String::from_str("--title"));
    r.push(String::from_str(titulo));
    r.push(String::from_str("--text"));
    r.push(String::from_str(texto));
    r.push(String::from_str("--entry-text"));
    r.push(String::from_str(valor_atual));
    assert(views(r@) =~= entry_args(titulo@, texto@, valor_atual@));
    r
}

/// The two kinds of message boxes.
#[derive(Debug, Clone, Copy, PartialEq, Eq, Structural)]
pub enum Aviso {
    Erro,
    Info,
}

/// The `zenity` arguments of a message box.
pub open spec fn message_args(tipo: Aviso, texto: Seq<char>) -> Seq<Seq<char>> {
    seq![
        match tipo {
            Aviso::Erro => "--error"@,
            Aviso::Info => "--info"@,
        },
        "--title"@,
        "FLM"@,
        "--width"@,
        "420"@,
        "--text"@,
        texto,
    ]
}

/// Arguments of `zenity` for an error or information box showing `texto`.
pub fn argumentos_aviso(tipo: Aviso, texto: &str) -> (r: Vec<String>)
    ensures
        views(r@) == message_args(tipo, texto@),
{
    let mut r: Vec<String> = Vec::new();
    match tipo {
        Aviso::Erro => r.push(String::from_str("--error")),
        Aviso::Info => r.push(String::from_str("--info")),
    }
    r.push(String::from_str("--title"));
    r.push(String::from_str("FLM"));
    r.push(String::from_str("--width"));
    r.push(String::from_str("420"));
    r.push(String::from_str("--text"));
    r.push(String::from_str(texto));
    assert(views(r@) =~= message_args(tipo, texto@));
    r
}

} // verus!
