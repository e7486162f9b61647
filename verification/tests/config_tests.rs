use agent_core::config::{Ambiente, Config};

fn config(ambiente: &str, broker_url: Option<&str>, broker_port: Option<u16>) -> Config {
    Config {
        ambiente: Ambiente(ambiente.to_string()),
        id_cliente: "gama".to_string(),
        id_punto: "001".to_string(),
        broker_url: broker_url.map(|s| s.to_string()),
        broker_port,
        update_url: None,
        log_level: None,
    }
}

#[test]
fn ambiente_acepta_dev_test_prod() {
    for (dado, esperado) in [("dev", "dev"), ("test", "test"), ("prod", "prod"), ("prod_gd4", "prod_gd4")] {
        let a = Ambiente::try_from(dado.to_string()).ok().unwrap();
        assert_eq!(a.as_str(), esperado);
    }
}

#[test]
fn ambiente_pasa_a_minusculas() {
    let a = Ambiente::try_from("PROD_BOG".to_string()).ok().unwrap();
    assert_eq!(a.as_str(), "prod_bog");
    let b = Ambiente::try_from("Test".to_string()).ok().unwrap();
    assert_eq!(b.as_str(), "test");
}

#[test]
fn ambiente_rechaza_otros() {
    let e = Ambiente::try_from("staging".to_string()).err().unwrap();
    assert_eq!(e.valor, "staging");
    assert_eq!(e.mensaje(), "Ambiente inválido: 'staging'. Usar dev|test|prod|prod_*");
    let e2 = Ambiente::try_from("Desarrollo".to_string()).err().unwrap();
    assert_eq!(e2.valor, "Desarrollo");
    assert!(Ambiente::try_from(String::new()).is_err());
    let e3 = Ambiente::try_from("production".to_string()).err().unwrap();
    assert_eq!(e3.valor, "production");
    assert!(Ambiente::try_from("prodx".to_string()).is_err());
    assert!(Ambiente::try_from("prod_".to_string()).is_ok());
}

#[test]
fn ambiente_desde_texto() {
    let a: Ambiente = "Dev".parse().ok().unwrap();
    assert_eq!(a.as_str(), "dev");
    assert!("qa".parse::<Ambiente>().is_err());
    assert!("Produccion".parse::<Ambiente>().is_err());
    let p: Ambiente = "PROD_BOG".parse().ok().unwrap();
    assert_eq!(p.as_str(), "prod_bog");
}

#[test]
fn ambiente_validar_recibe_minusculas() {
    let a = Ambiente::validar("prod_x".to_string(), "PROD_X".to_string()).ok().unwrap();
    assert_eq!(a.as_str(), "prod_x");
    let e = Ambiente::validar("qa".to_string(), "QA".to_string()).err().unwrap();
    assert_eq!(e.valor, "QA");
}

#[test]
fn ambiente_clasificacion() {
    let prod = Ambiente("prod_gd4".to_string());
    assert!(prod.is_prod());
    assert!(!prod.is_dev_or_test());
    assert_eq!(prod.base_env(), "prod");
    let dev = Ambiente("dev".to_string());
    assert!(!dev.is_prod());
    assert!(dev.is_dev_or_test());
    assert_eq!(dev.base_env(), "dev");
    let test = Ambiente("test".to_string());
    assert!(test.is_dev_or_test());
    assert_eq!(test.base_env(), "test");
    assert_eq!(prod.to_string(), "prod_gd4");
}

#[test]
fn topicos_del_ejemplo() {
    let c = config("prod_gd4", None, None);
    assert_eq!(c.topic_subscripcion(), "prod_gd4-gama-001-imp-local");
    assert_eq!(c.client_id_mqtt(), "prod_gd4-gama-001");
    assert_eq!(c.topic_broadcast_update(), "update-air-prod");
}

#[test]
fn difusion_por_familia() {
    assert_eq!(config("prod_bog", None, None).topic_broadcast_update(), "update-air-prod");
    assert_eq!(config("prod", None, None).topic_broadcast_update(), "update-air-prod");
    assert_eq!(config("dev", None, None).topic_broadcast_update(), "update-air-dev");
    assert_eq!(config("test", None, None).topic_broadcast_update(), "update-air-test");
    assert_eq!(config("test", None, None).topic_subscripcion(), "test-gama-001-imp-local");
}

#[test]
fn broker_por_defecto() {
    let c = config("dev", None, None);
    assert!(c.is_wss());
    assert_eq!(c.broker_port(), 1883);
    assert_eq!(c.broker_url(), "wss://gd5.gamasoftcol.com:1883/mqtt");
}

#[test]
fn broker_wss_con_puerto_configurado() {
    let c = config("prod", Some("wss://broker.ejemplo.com/mqtt"), Some(8883));
    assert!(c.is_wss());
    assert_eq!(c.broker_port(), 8883);
    assert_eq!(c.broker_url(), "wss://broker.ejemplo.com:8883/mqtt");
}

#[test]
fn broker_puerto_en_la_url_manda() {
    let c = config("prod", Some("ws://10.0.0.5:9001/ws"), Some(8883));
    assert!(!c.is_wss());
    assert_eq!(c.broker_url(), "ws://10.0.0.5:9001/ws");
    let d = config("prod", Some("wss://host:+443"), None);
    assert_eq!(d.broker_url(), "wss://host:443/mqtt");
}

#[test]
fn broker_puerto_ilegible_usa_configurado() {
    let c = config("prod", Some("wss://host:abc/p"), Some(8084));
    assert_eq!(c.broker_url(), "wss://host:8084/p");
    let d = config("prod", Some("wss://host:70000"), None);
    assert_eq!(d.broker_url(), "wss://host:1883/mqtt");
    let e = config("prod", Some("ws://host:"), None);
    assert_eq!(e.broker_url(), "ws://host:1883/mqtt");
}

#[test]
fn broker_tcp_solo_host() {
    assert_eq!(config("dev", Some("mqtt://127.0.0.1"), None).broker_url(), "127.0.0.1");
    assert_eq!(config("dev", Some("tcp://host.local:1883/x/y"), None).broker_url(), "host.local");
    assert_eq!(config("dev", Some("broker.local"), None).broker_url(), "broker.local");
    assert_eq!(config("dev", Some("host:1884"), None).broker_url(), "host");
    assert!(!config("dev", Some("mqtt://127.0.0.1"), None).is_wss());
}

#[test]
fn broker_normalizado_es_estable() {
    for url in ["wss://broker.ejemplo.com/mqtt", "ws://h:12/a/b", "mqtt://127.0.0.1:1883", "wss://x"] {
        let c = config("dev", Some(url), Some(8883));
        let una = c.broker_url();
        let d = config("dev", Some(&una), None);
        assert_eq!(d.broker_url(), una);
    }
}

#[test]
fn url_de_actualizacion() {
    let c = config("prod_gd4", None, None);
    assert_eq!(c.update_url_for("prod"), "https://www.gamasoftcol.com/ActualizadorAIR/prod/");
    let mut d = config("dev", None, None);
    d.update_url = Some("https://updates.ejemplo.com/ActualizadorAIR/prod/".to_string());
    assert_eq!(d.update_url_for("dev"), "https://updates.ejemplo.com/ActualizadorAIR/prod/");
}

#[test]
fn mostrar_y_leer_da_lo_mismo() {
    for nombre in ["dev", "test", "prod", "prod_gd4"] {
        let a = Ambiente::try_from(nombre.to_string()).ok().unwrap();
        let b: Ambiente = a.to_string().parse().ok().unwrap();
        assert_eq!(b.as_str(), a.as_str());
    }
}
