use agent_core::updater::{
    evaluar_version, instalador_valido, url_instalador, url_version, AccionOta, Actualizacion,
    ErrorActualizacion, EventoOta,
};

const HASH_ABC: &str = "ba7816bf8f01cfea414140de5dae2223b00361a396177a9cb410ff61f20015ad";

#[test]
fn direcciones() {
    assert_eq!(url_version("https://u/ActualizadorAIR/prod/"), "https://u/ActualizadorAIR/prod/version.txt");
    assert_eq!(url_instalador("https://u/"), "https://u/PrintAgentRS_Installer.exe");
}

#[test]
fn version_nueva() {
    let n = evaluar_version("26.1.2 abcdef\n", "26.1.1").ok().unwrap().unwrap();
    assert_eq!(n.version, "26.1.2");
    assert_eq!(n.hash, "abcdef");
    let m = evaluar_version("  26.2.0\t HASH  \r\n", "26.1.9").ok().unwrap().unwrap();
    assert_eq!(m.version, "26.2.0");
    assert_eq!(m.hash, "HASH");
}

#[test]
fn version_no_nueva() {
    assert!(evaluar_version("26.1.1 abc", "26.1.1").ok().unwrap().is_none());
    assert!(evaluar_version("26.1.0 abc", "26.1.1").ok().unwrap().is_none());
    // numbers, not texts: 9 is before 26
    assert!(evaluar_version("9.0.0 abc", "26.1.1").ok().unwrap().is_none());
    // missing numbers count as 0
    assert!(evaluar_version("26.1 abc", "26.1.0").ok().unwrap().is_none());
    assert!(evaluar_version("26.1.0 abc", "26.1").ok().unwrap().is_none());
}

#[test]
fn version_comparada_por_numeros() {
    let n = evaluar_version("26.10.0 abc", "26.9.0").ok().unwrap().unwrap();
    assert_eq!(n.version, "26.10.0");
    assert!(evaluar_version("26.1.1.1 abc", "26.1.1").ok().unwrap().is_some());
    assert!(evaluar_version("027.0.0 abc", "26.9.9").ok().unwrap().is_some());
    assert!(evaluar_version("18446744073709551615.0 abc", "26.1.1").ok().unwrap().is_some());
}

#[test]
fn version_no_numerica_por_texto() {
    // not all numbers: the texts are compared byte by byte
    let n = evaluar_version("26.1.2-rc1 abc", "26.1.1").ok().unwrap().unwrap();
    assert_eq!(n.version, "26.1.2-rc1");
    assert!(evaluar_version("1-b h", "1").ok().unwrap().is_some());
    assert!(evaluar_version("26.2.0-beta abc", "26.1.1").ok().unwrap().is_some());
    assert!(evaluar_version("26..1 abc", "26.1.1").ok().unwrap().is_none());
    assert!(evaluar_version("26.2.0 abc", "v26").ok().unwrap().is_none());
    assert!(evaluar_version("18446744073709551616 abc", "26.1.1").ok().unwrap().is_none());
    assert!(evaluar_version("v1 abc", "v1").ok().unwrap().is_none());
}

#[test]
fn version_vieja_no_descarga() {
    let mut a = Actualizacion::new("https://u/".to_string(), "26.1.1".to_string());
    a.paso(EventoOta::Comenzar);
    let texto = format!("9.0.0 {}", HASH_ABC);
    assert!(matches!(a.paso(EventoOta::VersionRecibida(Some(texto))), AccionOta::Finalizar(Ok(false))));
}

#[test]
fn version_mal_formada() {
    assert_eq!(evaluar_version("26.1.2", "1").err().unwrap(), ErrorActualizacion::FormatoVersion);
    assert_eq!(evaluar_version("a b c", "1").err().unwrap(), ErrorActualizacion::FormatoVersion);
    assert_eq!(evaluar_version("   ", "1").err().unwrap(), ErrorActualizacion::FormatoVersion);
}

#[test]
fn hash_del_instalador() {
    assert!(instalador_valido(b"abc", HASH_ABC));
    assert!(!instalador_valido(b"abd", HASH_ABC));
    assert!(!instalador_valido(b"abc", &HASH_ABC.to_uppercase()));
}

#[test]
fn ciclo_completo_con_instalacion() {
    let texto = format!("99.0.0 {}", HASH_ABC);
    let mut a = Actualizacion::new("https://u/".to_string(), "26.1.0".to_string());
    match a.paso(EventoOta::Comenzar) {
        AccionOta::PedirVersion(u) => assert_eq!(u, "https://u/version.txt"),
        _ => panic!(),
    }
    match a.paso(EventoOta::VersionRecibida(Some(texto))) {
        AccionOta::PedirInstalador(u) => assert_eq!(u, "https://u/PrintAgentRS_Installer.exe"),
        _ => panic!(),
    }
    assert!(matches!(a.paso(EventoOta::InstaladorRecibido(b"abc".to_vec())), AccionOta::Instalar));
    assert!(matches!(a.paso(EventoOta::Comenzar), AccionOta::Nada));
}

#[test]
fn ciclo_con_hash_distinto() {
    let mut a = Actualizacion::new("https://u/".to_string(), "26.1.0".to_string());
    a.paso(EventoOta::Comenzar);
    a.paso(EventoOta::VersionRecibida(Some(format!("99.0.0 {}", HASH_ABC))));
    assert!(matches!(
        a.paso(EventoOta::InstaladorRecibido(b"otro".to_vec())),
        AccionOta::DescartarYFallar(ErrorActualizacion::HashNoCoincide)
    ));
}

#[test]
fn ciclo_sin_red_o_sin_novedad() {
    let mut a = Actualizacion::new("https://u/".to_string(), "26.1.0".to_string());
    a.paso(EventoOta::Comenzar);
    assert!(matches!(a.paso(EventoOta::VersionRecibida(None)), AccionOta::Finalizar(Ok(false))));
    let mut b = Actualizacion::new("https://u/".to_string(), "26.1.0".to_string());
    b.paso(EventoOta::Comenzar);
    assert!(matches!(b.paso(EventoOta::VersionRecibida(Some("26.1.0 x".to_string()))), AccionOta::Finalizar(Ok(false))));
    let mut c = Actualizacion::new("https://u/".to_string(), "26.1.0".to_string());
    c.paso(EventoOta::Comenzar);
    assert!(matches!(
        c.paso(EventoOta::VersionRecibida(Some("roto".to_string()))),
        AccionOta::Finalizar(Err(ErrorActualizacion::FormatoVersion))
    ));
}

#[test]
fn eventos_fuera_de_lugar() {
    let mut a = Actualizacion::new("https://u/".to_string(), "1".to_string());
    assert!(matches!(a.paso(EventoOta::InstaladorRecibido(vec![])), AccionOta::Nada));
    assert!(matches!(a.paso(EventoOta::VersionRecibida(None)), AccionOta::Nada));
    assert!(matches!(a.paso(EventoOta::Comenzar), AccionOta::PedirVersion(_)));
}
