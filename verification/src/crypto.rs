//! Encryption of the configuration file: AES-256-GCM under a key derived with
//! SHA-256 from a secret held in the binary, written as
//! `PAGENT_ENC:` followed by the Base64 of `nonce || ciphertext`.
use vstd::prelude::*;
use vstd::utf8::{decode_utf8, encode_utf8, valid_utf8};

use aes_gcm::aead::{Aead, AeadCore, KeyInit, OsRng};
use aes_gcm::{Aes256Gcm, Key, Nonce};
use base64::Engine;
use sha2::Digest;

use crate::texto::{anexar, cadena, caracteres, empieza, empieza_con, tramo};

verus! {

broadcast use vstd::utf8::encode_utf8_decode_utf8, vstd::utf8::encode_utf8_valid_utf8;

/// The prefix that marks an encrypted configuration file.
pub const MAGIC_PREFIX: &'static str = "PAGENT_ENC:";

/// The secret from which the configuration key is derived.
const INTERNAL_SECRET: &'static str = "PrintAgentRS::Config::v1::s3cr3t_k3y_2026";

/// The length of an AES-GCM nonce, in bytes.
pub const LARGO_NONCE: usize = 12;

/// The largest plaintext AES-GCM encrypts, in bytes (`aes_gcm::P_MAX`).
pub const MAXIMO_CIFRABLE: u64 = 0x10_0000_0000;

// ---------------------------------------------------------------------------
// Names for what the outside crates compute
// ---------------------------------------------------------------------------

/// The SHA-256 digest of `datos` (`sha2::Sha256::digest`).
pub uninterp spec fn resumen_sha256(datos: Seq<u8>) -> Seq<u8>;

/// AES-256-GCM encryption of `texto` under `clave` and `nonce`, without
/// associated data: the ciphertext followed by the tag.
pub uninterp spec fn aes_gcm_cifrado(clave: Seq<u8>, nonce: Seq<u8>, texto: Seq<u8>) -> Option<
    Seq<u8>,
>;

/// AES-256-GCM decryption of `cifrado` under `clave` and `nonce`: `None` when
/// the tag does not authenticate it.
pub uninterp spec fn aes_gcm_descifrado(clave: Seq<u8>, nonce: Seq<u8>, cifrado: Seq<u8>) -> Option<
    Seq<u8>,
>;

/// The standard Base64 encoding (with padding) of `datos`.
pub uninterp spec fn codificado_base64(datos: Seq<u8>) -> Seq<char>;

/// The bytes that the standard Base64 text `texto` encodes; when it is no
/// valid standard Base64, the message of the decoding error.
pub uninterp spec fn decodificado_base64(texto: Seq<char>) -> Result<Seq<u8>, Seq<char>>;

/// The standard Base64 text `texto` encodes the bytes `datos`.
pub open spec fn decodifica_a(texto: Seq<char>, datos: Seq<u8>) -> bool {
    decodificado_base64(texto) == Ok::<Seq<u8>, Seq<char>>(datos)
}

/// The message of the error `String::from_utf8` gives for `bytes`.
pub uninterp spec fn error_utf8(bytes: Seq<u8>) -> Seq<char>;

/// The contents of a byte vector or the text of an error message.
pub open spec fn vista_resultado(r: Result<Vec<u8>, String>) -> Result<Seq<u8>, Seq<char>> {
    match r {
        Ok(v) => Ok(v@),
        Err(m) => Err(m@),
    }
}

/// The contents of an optional byte vector.
pub open spec fn vista_bytes(o: Option<Vec<u8>>) -> Option<Seq<u8>> {
    match o {
        Some(v) => Some(v@),
        None => None,
    }
}

// ---------------------------------------------------------------------------
// Trusted items
// ---------------------------------------------------------------------------

/// `sha2::Sha256::digest`: the 32-byte SHA-256 digest of `datos`, named
/// `resumen_sha256`.
#[verifier::external_body]
pub(crate) fn sha256(datos: &[u8]) -> (r: Vec<u8>)
    ensures
        r@ == resumen_sha256(datos@),
        r@.len() == 32,
{
    sha2::Sha256::digest(datos).to_vec()
}

/// `Aes256Gcm::generate_nonce(&mut OsRng)`: 12 random bytes from the operating
/// system. Nothing is stated of their value.
#[verifier::external_body]
fn nonce_aleatorio() -> (r: Vec<u8>)
    ensures
        r@.len() == LARGO_NONCE,
{
    Aes256Gcm::generate_nonce(&mut OsRng).to_vec()
}

/// `Aes256Gcm::encrypt` (after `Aes256Gcm::new`): fails exactly when the
/// plaintext is longer than `P_MAX`, with the error that displays as
/// `aead::Error`; what it gives is named `aes_gcm_cifrado`, is 16 bytes (the
/// tag) longer than the plaintext, and decrypts back to it.
#[verifier::external_body]
fn cifrar_aes(clave: &[u8], nonce: &[u8], texto: &[u8]) -> (r: Result<Vec<u8>, String>)
    requires
        clave@.len() == 32,
        nonce@.len() == LARGO_NONCE,
    ensures
        match r {
            Ok(c) => aes_gcm_cifrado(clave@, nonce@, texto@) == Some(c@),
            Err(_) => aes_gcm_cifrado(clave@, nonce@, texto@) is None,
        },
        r is Ok <==> texto@.len() <= MAXIMO_CIFRABLE,
        r matches Err(m) ==> m@ == "aead::Error"@,
        r matches Ok(c) ==> c@.len() == texto@.len() + 16 && aes_gcm_descifrado(
            clave@,
            nonce@,
            c@,
        ) == Some(texto@),
{
    let cipher = Aes256Gcm::new(Key::<Aes256Gcm>::from_slice(clave));
    cipher.encrypt(Nonce::from_slice(nonce), texto).map_err(|e| e.to_string())
}

/// `Aes256Gcm::decrypt` (after `Aes256Gcm::new`): named `aes_gcm_descifrado`.
#[verifier::external_body]
fn descifrar_aes(clave: &[u8], nonce: &[u8], cifrado: &[u8]) -> (r: Option<Vec<u8>>)
    requires
        clave@.len() == 32,
        nonce@.len() == LARGO_NONCE,
    ensures
        vista_bytes(r) == aes_gcm_descifrado(clave@, nonce@, cifrado@),
{
    let cipher = Aes256Gcm::new(Key::<Aes256Gcm>::from_slice(clave));
    cipher.decrypt(Nonce::from_slice(nonce), cifrado).ok()
}

/// `base64::engine::general_purpose::STANDARD.encode`: named
/// `codificado_base64`; the standard decoding gives the bytes back. The
/// encoder panics when the encoded length overflows `usize`, which the bound
/// on the input rules out.
#[verifier::external_body]
pub(crate) fn base64_codificar(datos: &[u8]) -> (r: String)
    requires
        datos@.len() <= usize::MAX / 2,
    ensures
        r@ == codificado_base64(datos@),
        decodifica_a(r@, datos@),
{
    base64::engine::general_purpose::STANDARD.encode(datos)
}

/// `base64::engine::general_purpose::STANDARD.decode`, its error given as the
/// text it displays: named `decodificado_base64`.
#[verifier::external_body]
pub(crate) fn base64_decodificar(texto: &str) -> (r: Result<Vec<u8>, String>)
    ensures
        vista_resultado(r) == decodificado_base64(texto@),
{
    base64::engine::general_purpose::STANDARD.decode(texto).map_err(|e| e.to_string())
}

/// `String::from_utf8`: the text the bytes encode, when they are valid UTF-8;
/// else the text its error displays, named `error_utf8`.
#[verifier::external_body]
pub(crate) fn texto_utf8(bytes: Vec<u8>) -> (r: Result<String, String>)
    ensures
        r is Ok <==> valid_utf8(bytes@),
        r matches Ok(s) ==> s@ == decode_utf8(bytes@),
        r matches Err(m) ==> m@ == error_utf8(bytes@),
{
    String::from_utf8(bytes).map_err(|e| e.to_string())
}

// ---------------------------------------------------------------------------
// Specification
// ---------------------------------------------------------------------------

/// Why a configuration text could not be encrypted or decrypted.
#[derive(Debug, Clone, PartialEq, Eq)]
pub enum ErrorCripto {
    /// The plaintext is too long for AES-GCM; the cipher's error message.
    CifradoFallido { detalle: String },
    /// The text does not begin with `PAGENT_ENC:`.
    SinPrefijo,
    /// What follows the prefix is no valid Base64; the decoder's message.
    Base64Invalido { detalle: String },
    /// The decoded data is shorter than a nonce.
    DatosCortos,
    /// The data does not authenticate: it was altered or is corrupt.
    Alterado,
    /// The decrypted bytes are no valid UTF-8 text; the conversion's message.
    TextoInvalido { detalle: String },
}

/// Why a configuration text could not be encrypted or decrypted, as values.
pub ghost enum ErrorCriptoV {
    CifradoFallido(Seq<char>),
    SinPrefijo,
    Base64Invalido(Seq<char>),
    DatosCortos,
    Alterado,
    TextoInvalido(Seq<char>),
}

impl View for ErrorCripto {
    type V = ErrorCriptoV;

    open spec fn view(&self) -> ErrorCriptoV {
        match self {
            ErrorCripto::CifradoFallido { detalle } => ErrorCriptoV::CifradoFallido(detalle@),
            ErrorCripto::SinPrefijo => ErrorCriptoV::SinPrefijo,
            ErrorCripto::Base64Invalido { detalle } => ErrorCriptoV::Base64Invalido(detalle@),
            ErrorCripto::DatosCortos => ErrorCriptoV::DatosCortos,
            ErrorCripto::Alterado => ErrorCriptoV::Alterado,
            ErrorCripto::TextoInvalido { detalle } => ErrorCriptoV::TextoInvalido(detalle@),
        }
    }
}

/// The message of each error.
pub open spec fn mensaje_error(e: ErrorCriptoV) -> Seq<char> {
    match e {
        ErrorCriptoV::CifradoFallido(d) => "Error cifrando config: "@ + d,
        ErrorCriptoV::SinPrefijo => "El archivo no tiene el prefijo de cifrado esperado"@,
        ErrorCriptoV::Base64Invalido(d) => "Error decodificando base64 del config: "@ + d,
        ErrorCriptoV::DatosCortos => "Datos cifrados corruptos (muy cortos)"@,
        ErrorCriptoV::Alterado =>
            "⚠️ config.toml fue alterado o está corrupto. El descifrado falló. Contacte soporte técnico."@,
        ErrorCriptoV::TextoInvalido(d) => "El config descifrado no es texto válido: "@ + d,
    }
}

impl ErrorCripto {
    /// The error message.
    pub fn mensaje(&self) -> (r: String)
        ensures
            r@ == mensaje_error(self@),
    {
        let mut v = match self {
            ErrorCripto::CifradoFallido { .. } => caracteres("Error cifrando config: "),
            ErrorCripto::SinPrefijo => caracteres("El archivo no tiene el prefijo de cifrado esperado"),
            ErrorCripto::Base64Invalido { .. } => caracteres(
                "Error decodificando base64 del config: ",
            ),
            ErrorCripto::DatosCortos => caracteres("Datos cifrados corruptos (muy cortos)"),
            ErrorCripto::Alterado => caracteres(
                "⚠️ config.toml fue alterado o está corrupto. El descifrado falló. Contacte soporte técnico.",
            ),
            ErrorCripto::TextoInvalido { .. } => caracteres(
                "El config descifrado no es texto válido: ",
            ),
        };
        match self {
            ErrorCripto::CifradoFallido { detalle } => anexar(&mut v, &caracteres(detalle.as_str())),
            ErrorCripto::Base64Invalido { detalle } => anexar(&mut v, &caracteres(detalle.as_str())),
            ErrorCripto::TextoInvalido { detalle } => anexar(&mut v, &caracteres(detalle.as_str())),
            _ => {},
        }
        cadena(&v)
    }
}

/// The configuration key: the SHA-256 digest of the internal secret.
pub closed spec fn clave_config() -> Seq<u8> {
    resumen_sha256(encode_utf8(INTERNAL_SECRET@))
}

/// The encrypted form of `texto` under the nonce `nonce`.
pub open spec fn forma_cifrada(texto: Seq<char>, nonce: Seq<u8>) -> Option<Seq<char>> {
    match aes_gcm_cifrado(clave_config(), nonce, encode_utf8(texto)) {
        Some(c) => Some(MAGIC_PREFIX@ + codificado_base64(nonce + c)),
        None => None,
    }
}

/// What decrypting the text `c` gives.
pub open spec fn descifrado(c: Seq<char>) -> Result<Seq<char>, ErrorCriptoV> {
    if !empieza_con(c, MAGIC_PREFIX@) {
        Err(ErrorCriptoV::SinPrefijo)
    } else {
        match decodificado_base64(c.skip(MAGIC_PREFIX@.len() as int)) {
            Err(m) => Err(ErrorCriptoV::Base64Invalido(m)),
            Ok(datos) => if datos.len() < LARGO_NONCE {
                Err(ErrorCriptoV::DatosCortos)
            } else {
                match aes_gcm_descifrado(
                    clave_config(),
                    datos.take(LARGO_NONCE as int),
                    datos.skip(LARGO_NONCE as int),
                ) {
                    None => Err(ErrorCriptoV::Alterado),
                    Some(p) => if valid_utf8(p) {
                        Ok(decode_utf8(p))
                    } else {
                        Err(ErrorCriptoV::TextoInvalido(error_utf8(p)))
                    },
                }
            },
        }
    }
}

/// The text of a configuration file: decrypted when it is encrypted, as it is
/// otherwise.
pub open spec fn texto_de_config(contenido: Seq<char>) -> Result<Seq<char>, ErrorCriptoV> {
    if empieza_con(contenido, MAGIC_PREFIX@) {
        descifrado(contenido)
    } else {
        Ok(contenido)
    }
}

/// An executable result of text against its specification.
pub open spec fn resultado_es(r: Result<String, ErrorCripto>, s: Result<Seq<char>, ErrorCriptoV>) -> bool {
    match r {
        Ok(t) => s == Ok::<Seq<char>, ErrorCriptoV>(t@),
        Err(e) => s == Err::<Seq<char>, ErrorCriptoV>(e@),
    }
}

// ---------------------------------------------------------------------------
// Operations
// ---------------------------------------------------------------------------

/// The configuration key.
fn derive_key() -> (r: Vec<u8>)
    ensures
        r@ == clave_config(),
        r@.len() == 32,
{
    sha256(INTERNAL_SECRET.as_bytes())
}

/// Encrypts a configuration text. Decrypting the result gives the text back,
/// and the result is recognised as encrypted.
pub fn cifrar(texto_plano: &str) -> (r: Result<String, ErrorCripto>)
    requires
        encode_utf8(texto_plano@).len() <= MAXIMO_CIFRABLE ==> encode_utf8(texto_plano@).len()
            + LARGO_NONCE + 16 <= usize::MAX / 2,
    ensures
        r is Ok <==> encode_utf8(texto_plano@).len() <= MAXIMO_CIFRABLE,
        r matches Err(e) ==> e@ == ErrorCriptoV::CifradoFallido("aead::Error"@),
        r matches Ok(c) ==> exists|n: Seq<u8>|
            n.len() == LARGO_NONCE && #[trigger] forma_cifrada(texto_plano@, n) == Some(c@),
        r matches Ok(c) ==> empieza_con(c@, MAGIC_PREFIX@),
        r matches Ok(c) ==> (decodificado_base64(c@.skip(MAGIC_PREFIX@.len() as int)) matches Ok(d)
            && d.len() == LARGO_NONCE + encode_utf8(texto_plano@).len() + 16),
        r matches Ok(c) ==> descifrado(c@) == Ok::<Seq<char>, ErrorCriptoV>(texto_plano@),
        r matches Ok(c) ==> texto_de_config(c@) == Ok::<Seq<char>, ErrorCriptoV>(texto_plano@),
{
    let clave = derive_key();
    let nonce = nonce_aleatorio();
    let bytes = texto_plano.as_bytes();
    match cifrar_aes(&clave, &nonce, bytes) {
        Err(detalle) => Err(ErrorCripto::CifradoFallido { detalle }),
        Ok(cifrado) => {
            let ghost n = nonce@;
            let ghost ct = cifrado@;
            let mut combinado = nonce;
            combinado.extend_from_slice(&cifrado);
            assert(combinado@ =~= n + ct);
            let codificado = base64_codificar(&combinado);
            let mut v = caracteres(MAGIC_PREFIX);
            let ghost p = v@;
            crate::texto::anexar(&mut v, &caracteres(codificado.as_str()));
            let r = crate::texto::cadena(&v);
            assert(r@ == MAGIC_PREFIX@ + codificado@);
            assert(forma_cifrada(texto_plano@, n) == Some(r@));
            assert(r@.take(MAGIC_PREFIX@.len() as int) =~= MAGIC_PREFIX@);
            assert(r@.skip(MAGIC_PREFIX@.len() as int) =~= codificado@);
            assert(combinado@.take(LARGO_NONCE as int) =~= n);
            assert(combinado@.skip(LARGO_NONCE as int) =~= ct);
            Ok(r)
        },
    }
}

/// Decrypts a configuration text written by `cifrar`.
pub fn descifrar(contenido_cifrado: &str) -> (r: Result<String, ErrorCripto>)
    ensures
        resultado_es(r, descifrado(contenido_cifrado@)),
{
    let c = caracteres(contenido_cifrado);
    let prefijo = caracteres(MAGIC_PREFIX);
    if !empieza(&c, &prefijo) {
        return Err(ErrorCripto::SinPrefijo);
    }
    let resto = crate::texto::cadena(&tramo(&c, prefijo.len(), c.len()));
    let combinado = match base64_decodificar(resto.as_str()) {
        Err(detalle) => return Err(ErrorCripto::Base64Invalido { detalle }),
        Ok(d) => d,
    };
    if combinado.len() < LARGO_NONCE {
        return Err(ErrorCripto::DatosCortos);
    }
    let mut cifrado = combinado;
    let nonce_bytes = {
        let mut n = cifrado;
        let resto = n.split_off(LARGO_NONCE);
        cifrado = resto;
        n
    };
    let clave = derive_key();
    let plano = match descifrar_aes(&clave, &nonce_bytes, &cifrado) {
        None => return Err(ErrorCripto::Alterado),
        Some(p) => p,
    };
    match texto_utf8(plano) {
        Err(detalle) => Err(ErrorCripto::TextoInvalido { detalle }),
        Ok(s) => Ok(s),
    }
}

/// Whether a configuration text is encrypted (begins with the prefix).
pub fn esta_cifrado(contenido: &str) -> (r: bool)
    ensures
        r == empieza_con(contenido@, MAGIC_PREFIX@),
{
    empieza(&caracteres(contenido), &caracteres(MAGIC_PREFIX))
}

} // verus!
