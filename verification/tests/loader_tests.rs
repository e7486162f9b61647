use agent_core::config::{Ambiente, Config};
use agent_core::config_loader::{debe_cifrarse, texto_config, CONFIG_EJEMPLO};
use agent_core::crypto::cifrar;

fn config(ambiente: &str) -> Config {
    Config {
        ambiente: Ambiente(ambiente.to_string()),
        id_cliente: "x".to_string(),
        id_punto: "y".to_string(),
        broker_url: None,
        broker_port: None,
        update_url: None,
        log_level: None,
    }
}

#[test]
fn texto_plano_se_lee_tal_cual() {
    assert_eq!(texto_config("ambiente = \"dev\"").ok().unwrap(), "ambiente = \"dev\"");
}

#[test]
fn texto_cifrado_se_descifra() {
    let c = cifrar("ambiente = \"prod\"").ok().unwrap();
    assert_eq!(texto_config(&c).ok().unwrap(), "ambiente = \"prod\"");
    assert!(texto_config("PAGENT_ENC:xx").is_err());
}

#[test]
fn solo_prod_en_claro_se_cifra() {
    assert!(debe_cifrarse(&config("prod_gd4"), "ambiente = \"prod_gd4\""));
    assert!(!debe_cifrarse(&config("dev"), "ambiente = \"dev\""));
    let c = cifrar("ambiente = \"prod\"").ok().unwrap();
    assert!(!debe_cifrarse(&config("prod"), &c));
}

#[test]
fn ejemplo_empieza_por_el_titulo() {
    assert!(CONFIG_EJEMPLO.starts_with("# Agente AIR"));
    assert!(CONFIG_EJEMPLO.contains("ambiente   = \"dev\""));
}
