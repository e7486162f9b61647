use agent_core::crypto::{cifrar, descifrar, esta_cifrado, ErrorCripto, MAGIC_PREFIX};
use aes_gcm::aead::{Aead, KeyInit};
use aes_gcm::{Aes256Gcm, Key, Nonce};
use base64::Engine;
use sha2::Digest;

const TOML: &str = "ambiente = \"prod_gd4\"\nid_cliente = \"gama\"\nid_punto = \"001\"\n";

fn cifrar_con_clave(datos: &[u8]) -> String {
    let clave = sha2::Sha256::digest(b"PrintAgentRS::Config::v1::s3cr3t_k3y_2026");
    let cipher = Aes256Gcm::new(Key::<Aes256Gcm>::from_slice(&clave));
    let nonce = [7u8; 12];
    let c = cipher.encrypt(Nonce::from_slice(&nonce), datos).unwrap();
    let mut todo = nonce.to_vec();
    todo.extend_from_slice(&c);
    format!("PAGENT_ENC:{}", base64::engine::general_purpose::STANDARD.encode(&todo))
}

#[test]
fn cifrar_y_descifrar() {
    let c = cifrar(TOML).ok().unwrap();
    assert!(c.starts_with(MAGIC_PREFIX));
    assert!(esta_cifrado(&c));
    assert_eq!(descifrar(&c).ok().unwrap(), TOML);
}

#[test]
fn cifrado_longitud_y_nonce_aleatorio() {
    let a = cifrar("hola").ok().unwrap();
    let b = cifrar("hola").ok().unwrap();
    assert_ne!(a, b);
    // base64 of 12 + 4 + 16 bytes = 32 bytes -> 44 characters
    assert_eq!(a.len(), MAGIC_PREFIX.len() + 44);
    let d = base64::engine::general_purpose::STANDARD.decode(&a[MAGIC_PREFIX.len()..]).unwrap();
    assert_eq!(d.len(), 12 + 4 + 16);
    assert_eq!(descifrar(&b).ok().unwrap(), "hola");
}

#[test]
fn cifrar_texto_vacio_y_unicode() {
    let c = cifrar("").ok().unwrap();
    assert_eq!(descifrar(&c).ok().unwrap(), "");
    let u = cifrar("año ñandú €").ok().unwrap();
    assert_eq!(descifrar(&u).ok().unwrap(), "año ñandú €");
}

#[test]
fn descifrar_compatible_con_la_clave() {
    let c = cifrar_con_clave(TOML.as_bytes());
    assert_eq!(descifrar(&c).ok().unwrap(), TOML);
}

#[test]
fn descifrar_sin_prefijo() {
    assert_eq!(descifrar("ambiente = \"dev\"").err().unwrap(), ErrorCripto::SinPrefijo);
    assert!(!esta_cifrado("ambiente = \"dev\""));
}

#[test]
fn descifrar_base64_invalido() {
    let e = descifrar("PAGENT_ENC:@@@").err().unwrap();
    assert_eq!(e, ErrorCripto::Base64Invalido { detalle: "Invalid symbol 64, offset 0.".to_string() });
    assert_eq!(e.mensaje(), "Error decodificando base64 del config: Invalid symbol 64, offset 0.");
}

#[test]
fn descifrar_datos_cortos() {
    let corto = format!("PAGENT_ENC:{}", base64::engine::general_purpose::STANDARD.encode([1u8, 2, 3, 4, 5]));
    assert_eq!(descifrar(&corto).err().unwrap(), ErrorCripto::DatosCortos);
}

#[test]
fn descifrar_alterado() {
    let c = cifrar(TOML).ok().unwrap();
    let mut bytes = base64::engine::general_purpose::STANDARD.decode(&c[MAGIC_PREFIX.len()..]).unwrap();
    let ultimo = bytes.len() - 1;
    bytes[ultimo] ^= 1;
    let alterado = format!("PAGENT_ENC:{}", base64::engine::general_purpose::STANDARD.encode(&bytes));
    assert_eq!(descifrar(&alterado).err().unwrap(), ErrorCripto::Alterado);
}

#[test]
fn descifrar_texto_invalido() {
    let c = cifrar_con_clave(&[0xff, 0xfe, 0x41]);
    let detalle = String::from_utf8(vec![0xff, 0xfe, 0x41]).unwrap_err().to_string();
    let e = descifrar(&c).err().unwrap();
    assert_eq!(e, ErrorCripto::TextoInvalido { detalle: detalle.clone() });
    assert_eq!(e.mensaje(), format!("El config descifrado no es texto válido: {}", detalle));
}

#[test]
fn mensajes_de_error() {
    assert_eq!(ErrorCripto::SinPrefijo.mensaje(), "El archivo no tiene el prefijo de cifrado esperado");
    assert_eq!(ErrorCripto::DatosCortos.mensaje(), "Datos cifrados corruptos (muy cortos)");
    let e = ErrorCripto::CifradoFallido { detalle: "aead::Error".to_string() };
    assert_eq!(e.mensaje(), "Error cifrando config: aead::Error");
    assert_eq!(
        ErrorCripto::Alterado.mensaje(),
        "⚠️ config.toml fue alterado o está corrupto. El descifrado falló. Contacte soporte técnico."
    );
}

#[test]
fn cifrado_es_aes_gcm_con_la_clave() {
    let c = cifrar(TOML).ok().unwrap();
    let bytes = base64::engine::general_purpose::STANDARD.decode(&c[MAGIC_PREFIX.len()..]).unwrap();
    let (nonce, cuerpo) = bytes.split_at(12);
    assert_ne!(&cuerpo[..TOML.len()], TOML.as_bytes());
    let clave = sha2::Sha256::digest(b"PrintAgentRS::Config::v1::s3cr3t_k3y_2026");
    let cipher = Aes256Gcm::new(Key::<Aes256Gcm>::from_slice(&clave));
    let plano = cipher.decrypt(Nonce::from_slice(nonce), cuerpo).unwrap();
    assert_eq!(plano, TOML.as_bytes());
}
