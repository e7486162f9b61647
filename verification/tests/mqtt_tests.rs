use agent_core::config::{Ambiente, Config};
use agent_core::messages::{Comando, FallbackComando};
use agent_core::mqtt::{
    decidir_comando, decidir_mensaje, es_topico_difusion, opciones_mqtt, paso_bucle, respuesta_impresion,
    respuesta_listado, ruta_temporal, Accion, AccionBucle, Entrada, EventoBucle, Transporte,
    MAX_PAQUETE,
};

fn config(ambiente: &str) -> Config {
    Config {
        ambiente: Ambiente(ambiente.to_string()),
        id_cliente: "gama".to_string(),
        id_punto: "001".to_string(),
        broker_url: Some("wss://broker.ejemplo.com/mqtt".to_string()),
        broker_port: Some(8883),
        update_url: None,
        log_level: None,
    }
}

fn listar(t: &str) -> Entrada {
    Entrada::Comando(Comando::ListPrinters { response_topic: t.to_string() })
}

#[test]
fn opciones_del_cliente() {
    let o = opciones_mqtt(&config("prod_gd4"));
    assert_eq!(o.client_id, "prod_gd4-gama-001");
    assert_eq!(o.host, "wss://broker.ejemplo.com:8883/mqtt");
    assert_eq!(o.puerto, 8883);
    assert_eq!(o.max_paquete_entrada, 20 * 1024 * 1024);
    assert_eq!(o.max_paquete_salida, MAX_PAQUETE);
    assert_eq!(o.capacidad, 10);
    assert_eq!(o.transporte, Transporte::Wss);
}

#[test]
fn transporte_segun_esquema() {
    let mut c = config("dev");
    c.broker_url = Some("ws://10.0.0.1:8083/mqtt".to_string());
    assert_eq!(opciones_mqtt(&c).transporte, Transporte::Ws);
    c.broker_url = Some("mqtt://127.0.0.1".to_string());
    let o = opciones_mqtt(&c);
    assert_eq!(o.transporte, Transporte::Tcp);
    assert_eq!(o.host, "127.0.0.1");
    assert_eq!(o.puerto, 8883);
    c.broker_url = None;
    assert_eq!(opciones_mqtt(&c).transporte, Transporte::Wss);
}

#[test]
fn bucle_suscribe_al_conectar() {
    match paso_bucle(&config("prod_gd4"), EventoBucle::Conectado) {
        AccionBucle::Suscribir { principal, difusion } => {
            assert_eq!(principal, "prod_gd4-gama-001-imp-local");
            assert_eq!(difusion, "update-air-prod");
        }
        _ => panic!("se esperaba suscribir"),
    }
}

#[test]
fn bucle_otros_eventos() {
    let c = config("dev");
    match paso_bucle(&c, EventoBucle::Publicacion { topico: "t".to_string(), payload: vec![1, 2] }) {
        AccionBucle::Manejar { topico, payload } => {
            assert_eq!(topico, "t");
            assert_eq!(payload, vec![1, 2]);
        }
        _ => panic!("se esperaba manejar"),
    }
    assert!(matches!(paso_bucle(&c, EventoBucle::ErrorConexion), AccionBucle::Esperar { segundos: 2 }));
    assert!(matches!(paso_bucle(&c, EventoBucle::Otro), AccionBucle::Continuar));
    assert!(matches!(paso_bucle(&c, EventoBucle::Apagado(false)), AccionBucle::Continuar));
    assert!(matches!(paso_bucle(&c, EventoBucle::Apagado(true)), AccionBucle::Terminar));
}

#[test]
fn difusion_actualiza_aun_en_pausa() {
    let c = config("prod_gd4");
    for pausado in [false, true] {
        match decidir_mensaje(&c, "update-air-prod", listar("r"), pausado) {
            Accion::Actualizar { update_url } => {
                assert_eq!(update_url, "https://www.gamasoftcol.com/ActualizadorAIR/prod/")
            }
            _ => panic!("se esperaba actualizar"),
        }
    }
}

#[test]
fn listar_impresoras() {
    match decidir_mensaje(&config("dev"), "dev-gama-001-imp-local", listar("resp/imp"), true) {
        Accion::ListarImpresoras { topico_respuesta } => assert_eq!(topico_respuesta, "resp/imp"),
        _ => panic!("se esperaba listar"),
    }
}

#[test]
fn imprimir_decodifica_el_pdf() {
    let cmd = Comando::Print {
        response_topic: "r".to_string(),
        printer_name: "EPSON TM-T20III".to_string(),
        file_to_print: "JVBERi0xLjQ=".to_string(),
    };
    match decidir_comando(&config("dev"), cmd, false) {
        Accion::Imprimir { topico_respuesta, impresora, pdf } => {
            assert_eq!(topico_respuesta, "r");
            assert_eq!(impresora, "EPSON TM-T20III");
            assert_eq!(pdf, b"%PDF-1.4".to_vec());
        }
        _ => panic!("se esperaba imprimir"),
    }
}

#[test]
fn imprimir_base64_invalido() {
    let cmd = Comando::Print {
        response_topic: "r".to_string(),
        printer_name: "p".to_string(),
        file_to_print: "no es base64!".to_string(),
    };
    match decidir_comando(&config("dev"), cmd, false) {
        Accion::Responder { topico, mensaje } => {
            assert_eq!(topico, "r");
            assert_eq!(mensaje, "Error al imprimir");
        }
        _ => panic!("se esperaba responder"),
    }
}

#[test]
fn imprimir_en_pausa_se_ignora() {
    let cmd = Comando::Print {
        response_topic: "r".to_string(),
        printer_name: "p".to_string(),
        file_to_print: "JVBERi0xLjQ=".to_string(),
    };
    assert!(matches!(decidir_comando(&config("dev"), cmd, true), Accion::Ninguna));
}

#[test]
fn actualizacion_dirigida() {
    let c = config("prod_gd4");
    let cmd = Comando::UpdateAir { response_topic: "r".to_string(), ambiente: Some("test".to_string()) };
    match decidir_comando(&c, cmd, false) {
        Accion::ResponderYActualizar { topico, mensaje, update_url } => {
            assert_eq!(topico, "r");
            assert_eq!(mensaje, "Verificando actualizaciones");
            assert_eq!(update_url, "https://www.gamasoftcol.com/ActualizadorAIR/test/");
        }
        _ => panic!("se esperaba actualizar"),
    }
    let sin = Comando::UpdateAir { response_topic: "r".to_string(), ambiente: None };
    match decidir_comando(&c, sin, true) {
        Accion::ResponderYActualizar { update_url, .. } => {
            assert_eq!(update_url, "https://www.gamasoftcol.com/ActualizadorAIR/prod/")
        }
        _ => panic!("se esperaba actualizar"),
    }
}

#[test]
fn comando_invalido() {
    let c = config("dev");
    let con = Entrada::Invalida(Some(FallbackComando { response_topic: Some("r".to_string()) }));
    match decidir_mensaje(&c, "dev-gama-001-imp-local", con, false) {
        Accion::Responder { topico, mensaje } => {
            assert_eq!(topico, "r");
            assert_eq!(mensaje, "Action is required");
        }
        _ => panic!("se esperaba responder"),
    }
    let sin = Entrada::Invalida(Some(FallbackComando { response_topic: None }));
    assert!(matches!(decidir_mensaje(&c, "x", sin, false), Accion::Ninguna));
    assert!(matches!(decidir_mensaje(&c, "x", Entrada::Invalida(None), false), Accion::Ninguna));
}

#[test]
fn respuestas() {
    let l = vec![
        "EPSON TM-T20III".to_string(),
        "HP LaserJet Pro".to_string(),
        "Microsoft Print to PDF".to_string(),
    ];
    assert_eq!(
        respuesta_listado(Some(l)),
        "[EPSON TM-T20III, HP LaserJet Pro, Microsoft Print to PDF]"
    );
    assert_eq!(respuesta_listado(Some(vec!["A".to_string()])), "[A]");
    assert_eq!(respuesta_listado(Some(vec![])), "[]");
    assert_eq!(respuesta_listado(None), "Error listando impresoras");
    assert_eq!(respuesta_impresion(true), "Impresion exitosa");
    assert_eq!(respuesta_impresion(false), "Error al imprimir");
}

#[test]
fn ruta_del_pdf_temporal() {
    assert_eq!(ruta_temporal(1700000000123), "temp/1700000000123.pdf");
    assert_eq!(ruta_temporal(0), "temp/0.pdf");
    assert_eq!(ruta_temporal(u128::MAX), format!("temp/{}.pdf", u128::MAX));
}

#[test]
fn topico_de_difusion() {
    let c = config("prod_bog");
    assert!(es_topico_difusion(&c, "update-air-prod"));
    assert!(!es_topico_difusion(&c, "update-air-dev"));
    assert!(!es_topico_difusion(&c, "prod_bog-gama-001-imp-local"));
}
