//! The decisions of the MQTT agent: the client options, what to do on each
//! event of the connection, what each received message asks for, and the
//! replies. The caller performs what each decision names (subscribing,
//! publishing, printing, updating) and reports back.
use vstd::prelude::*;

use crate::config::{
    entorno_base, es_wss, id_cliente_mqtt, puerto_configurado, topico_difusion,
    topico_suscripcion, url_actualizacion, url_broker, url_cruda, Config,
};
use crate::crypto::{base64_decodificar, decodificado_base64};
use crate::messages::{Comando, FallbackComando};
use crate::texto::{
    anexar, cadena, caracteres, decimal, empieza, empieza_con, escribir_decimal, iguales,
};

verus! {

/// The largest MQTT packet accepted or sent, in bytes (large PDFs travel in
/// one message).
pub const MAX_PAQUETE: usize = 20971520;

/// The capacity of the client's request channel.
pub const CAPACIDAD_CANAL: usize = 10;

/// The pause after a connection error before polling again, in seconds.
pub const SEGUNDOS_REINTENTO: u64 = 2;

// ---------------------------------------------------------------------------
// Client options
// ---------------------------------------------------------------------------

/// How the client reaches the broker.
#[derive(Debug, Clone, Copy, PartialEq, Eq, Structural)]
pub enum Transporte {
    /// Plain MQTT over TCP.
    Tcp,
    /// MQTT over web sockets.
    Ws,
    /// MQTT over secure web sockets (TLS).
    Wss,
}

/// The transport of a configuration: after the scheme of its broker address.
pub open spec fn transporte_de(c: Config) -> Transporte {
    if es_wss(c) {
        Transporte::Wss
    } else if empieza_con(url_cruda(c), "ws://"@) {
        Transporte::Ws
    } else {
        Transporte::Tcp
    }
}

/// The options of the MQTT client.
pub struct OpcionesMqtt {
    pub transporte: Transporte,
    pub client_id: String,
    pub host: String,
    pub puerto: u16,
    pub max_paquete_entrada: usize,
    pub max_paquete_salida: usize,
    pub capacidad: usize,
}

/// The options of the MQTT client for a configuration.
pub fn opciones_mqtt(cfg: &Config) -> (r: OpcionesMqtt)
    ensures
        r.transporte == transporte_de(*cfg),
        r.client_id@ == id_cliente_mqtt(*cfg),
        r.host@ == url_broker(*cfg),
        r.puerto == puerto_configurado(*cfg),
        r.max_paquete_entrada == MAX_PAQUETE,
        r.max_paquete_salida == MAX_PAQUETE,
        r.capacidad == CAPACIDAD_CANAL,
{
    let transporte = if cfg.is_wss() {
        Transporte::Wss
    } else if empieza(&cfg.url_cruda(), &caracteres("ws://")) {
        Transporte::Ws
    } else {
        Transporte::Tcp
    };
    OpcionesMqtt {
        transporte,
        client_id: cfg.client_id_mqtt(),
        host: cfg.broker_url(),
        puerto: cfg.broker_port(),
        max_paquete_entrada: MAX_PAQUETE,
        max_paquete_salida: MAX_PAQUETE,
        capacidad: CAPACIDAD_CANAL,
    }
}

// ---------------------------------------------------------------------------
// Connection events
// ---------------------------------------------------------------------------

/// What the connection or the shutdown signal reports.
pub enum EventoBucle {
    /// The broker acknowledged the connection.
    Conectado,
    /// A message arrived.
    Publicacion { topico: String, payload: Vec<u8> },
    /// Polling the connection failed.
    ErrorConexion,
    /// Any other connection event.
    Otro,
    /// The shutdown signal changed to the given value.
    Apagado(bool),
}

/// What to do next in the connection loop.
pub enum AccionBucle {
    /// Subscribe (again) to the command topic and to the update broadcast.
    Suscribir { principal: String, difusion: String },
    /// Handle the message on its own task.
    Manejar { topico: String, payload: Vec<u8> },
    /// Wait before polling again.
    Esperar { segundos: u64 },
    /// Keep polling.
    Continuar,
    /// Leave the loop.
    Terminar,
}

/// The step of the connection loop for one event.
pub fn paso_bucle(cfg: &Config, evento: EventoBucle) -> (r: AccionBucle)
    ensures
        match evento {
            EventoBucle::Conectado => r matches AccionBucle::Suscribir { principal, difusion }
                && principal@ == topico_suscripcion(*cfg) && difusion@ == topico_difusion(*cfg),
            EventoBucle::Publicacion { topico, payload } => r == AccionBucle::Manejar {
                topico,
                payload,
            },
            EventoBucle::ErrorConexion => r == AccionBucle::Esperar {
                segundos: SEGUNDOS_REINTENTO,
            },
            EventoBucle::Otro => r == AccionBucle::Continuar,
            EventoBucle::Apagado(b) => if b {
                r == AccionBucle::Terminar
            } else {
                r == AccionBucle::Continuar
            },
        },
{
    match evento {
        EventoBucle::Conectado => AccionBucle::Suscribir {
            principal: cfg.topic_subscripcion(),
            difusion: cfg.topic_broadcast_update(),
        },
        EventoBucle::Publicacion { topico, payload } => AccionBucle::Manejar { topico, payload },
        EventoBucle::ErrorConexion => AccionBucle::Esperar { segundos: SEGUNDOS_REINTENTO },
        EventoBucle::Otro => AccionBucle::Continuar,
        EventoBucle::Apagado(b) => if b {
            AccionBucle::Terminar
        } else {
            AccionBucle::Continuar
        },
    }
}

// ---------------------------------------------------------------------------
// Messages
// ---------------------------------------------------------------------------

/// A received payload, as read by the JSON reader.
pub enum Entrada {
    /// A valid command.
    Comando(Comando),
    /// No valid command; what could be read of it, if anything.
    Invalida(Option<FallbackComando>),
}

/// What a received message asks for.
pub enum Accion {
    /// Nothing to do.
    Ninguna,
    /// Check for an update at the given server, without replying.
    Actualizar { update_url: String },
    /// Publish a reply.
    Responder { topico: String, mensaje: String },
    /// List the printers, then reply with `respuesta_listado`.
    ListarImpresoras { topico_respuesta: String },
    /// Print the PDF, then reply with `respuesta_impresion`.
    Imprimir { topico_respuesta: String, impresora: String, pdf: Vec<u8> },
    /// Publish a reply, then check for an update at the given server.
    ResponderYActualizar { topico: String, mensaje: String, update_url: String },
}

/// What a received message asks for, as values.
pub ghost enum AccionV {
    Ninguna,
    Actualizar(Seq<char>),
    Responder(Seq<char>, Seq<char>),
    ListarImpresoras(Seq<char>),
    Imprimir(Seq<char>, Seq<char>, Seq<u8>),
    ResponderYActualizar(Seq<char>, Seq<char>, Seq<char>),
}

impl View for Accion {
    type V = AccionV;

    open spec fn view(&self) -> AccionV {
        match self {
            Accion::Ninguna => AccionV::Ninguna,
            Accion::Actualizar { update_url } => AccionV::Actualizar(update_url@),
            Accion::Responder { topico, mensaje } => AccionV::Responder(topico@, mensaje@),
            Accion::ListarImpresoras { topico_respuesta } => AccionV::ListarImpresoras(
                topico_respuesta@,
            ),
            Accion::Imprimir { topico_respuesta, impresora, pdf } => AccionV::Imprimir(
                topico_respuesta@,
                impresora@,
                pdf@,
            ),
            Accion::ResponderYActualizar { topico, mensaje, update_url } =>
                AccionV::ResponderYActualizar(topico@, mensaje@, update_url@),
        }
    }
}

/// The update server that a broadcast or an update command without
/// environment refers to: the one of the agent's environment family.
pub open spec fn url_actualizacion_propia(cfg: Config) -> Seq<char> {
    url_actualizacion(cfg, entorno_base(cfg.ambiente@))
}

/// What a valid command asks for.
pub open spec fn accion_comando(cfg: Config, c: Comando, pausado: bool) -> AccionV {
    match c {
        Comando::ListPrinters { response_topic } => AccionV::ListarImpresoras(response_topic@),
        Comando::Print { response_topic, printer_name, file_to_print } => if pausado {
            AccionV::Ninguna
        } else {
            match decodificado_base64(file_to_print@) {
                Ok(pdf) => AccionV::Imprimir(response_topic@, printer_name@, pdf),
                Err(_) => AccionV::Responder(response_topic@, "Error al imprimir"@),
            }
        },
        Comando::UpdateAir { response_topic, ambiente } => AccionV::ResponderYActualizar(
            response_topic@,
            "Verificando actualizaciones"@,
            match ambiente {
                Some(a) => url_actualizacion(cfg, a@),
                None => url_actualizacion_propia(cfg),
            },
        ),
    }
}

/// What a received message asks for. A message on the update broadcast asks
/// for an update check whatever it holds, also while paused; a valid command
/// asks for what `accion_comando` says; an invalid one is answered with
/// `Action is required` when its reply topic can be read.
pub open spec fn accion_mensaje(cfg: Config, topico: Seq<char>, e: Entrada, pausado: bool) -> AccionV {
    if topico == topico_difusion(cfg) {
        AccionV::Actualizar(url_actualizacion_propia(cfg))
    } else {
        match e {
            Entrada::Comando(c) => accion_comando(cfg, c, pausado),
            Entrada::Invalida(f) => match f {
                Some(fb) => match fb.response_topic {
                    Some(t) => AccionV::Responder(t@, "Action is required"@),
                    None => AccionV::Ninguna,
                },
                None => AccionV::Ninguna,
            },
        }
    }
}

/// Whether a message arrived on the update broadcast, whose payload is not read.
pub fn es_topico_difusion(cfg: &Config, topico: &str) -> (r: bool)
    ensures
        r == (topico@ == topico_difusion(*cfg)),
{
    let difusion = cfg.topic_broadcast_update();
    iguales(&caracteres(topico), &caracteres(difusion.as_str()))
}

/// What a received message asks for; `pausado` tells whether print jobs are
/// paused.
pub fn decidir_mensaje(cfg: &Config, topico: &str, entrada: Entrada, pausado: bool) -> (r: Accion)
    ensures
        r@ == accion_mensaje(*cfg, topico@, entrada, pausado),
{
    if es_topico_difusion(cfg, topico) {
        let base = cfg.ambiente.base_env();
        return Accion::Actualizar { update_url: cfg.update_url_for(base) };
    }
    match entrada {
        Entrada::Comando(c) => decidir_comando(cfg, c, pausado),
        Entrada::Invalida(f) => match f {
            Some(fb) => match fb.response_topic {
                Some(t) => Accion::Responder {
                    topico: t,
                    mensaje: "Action is required".to_owned(),
                },
                None => Accion::Ninguna,
            },
            None => Accion::Ninguna,
        },
    }
}

/// What a valid command asks for.
pub fn decidir_comando(cfg: &Config, c: Comando, pausado: bool) -> (r: Accion)
    ensures
        r@ == accion_comando(*cfg, c, pausado),
{
    match c {
        Comando::ListPrinters { response_topic } => Accion::ListarImpresoras {
            topico_respuesta: response_topic,
        },
        Comando::Print { response_topic, printer_name, file_to_print } => {
            if pausado {
                Accion::Ninguna
            } else {
                match base64_decodificar(file_to_print.as_str()) {
                    Ok(pdf) => Accion::Imprimir {
                        topico_respuesta: response_topic,
                        impresora: printer_name,
                        pdf,
                    },
                    Err(_) => Accion::Responder {
                        topico: response_topic,
                        mensaje: "Error al imprimir".to_owned(),
                    },
                }
            }
        },
        Comando::UpdateAir { response_topic, ambiente } => {
            let update_url = match &ambiente {
                Some(a) => cfg.update_url_for(a.as_str()),
                None => cfg.update_url_for(cfg.ambiente.base_env()),
            };
            Accion::ResponderYActualizar {
                topico: response_topic,
                mensaje: "Verificando actualizaciones".to_owned(),
                update_url,
            }
        },
    }
}

/// The reply topic of a command.
pub open spec fn topico_respuesta(c: Comando) -> Seq<char> {
    match c {
        Comando::ListPrinters { response_topic } => response_topic@,
        Comando::Print { response_topic, .. } => response_topic@,
        Comando::UpdateAir { response_topic, .. } => response_topic@,
    }
}

/// An update command that names an environment asks for the update server of
/// that environment, whatever the agent's own environment: the configured
/// server, or the company's server for the named environment; one that names
/// none asks for the server of the agent's environment family. Either way the
/// reply is `Verificando actualizaciones` on the command's reply topic, also
/// while paused.
pub proof fn lema_actualizacion_dirigida(
    cfg: Config,
    topico: String,
    ambiente: Option<String>,
    pausado: bool,
)
    ensures
        accion_comando(cfg, Comando::UpdateAir { response_topic: topico, ambiente }, pausado)
            == AccionV::ResponderYActualizar(
            topico@,
            "Verificando actualizaciones"@,
            match cfg.update_url {
                Some(u) => u@,
                None => "https://www.gamasoftcol.com/ActualizadorAIR/"@ + match ambiente {
                    Some(a) => a@,
                    None => entorno_base(cfg.ambiente@),
                } + "/"@,
            },
        ),
        ambiente matches Some(a) ==> accion_comando(
            cfg,
            Comando::UpdateAir { response_topic: topico, ambiente },
            pausado,
        ) == AccionV::ResponderYActualizar(
            topico@,
            "Verificando actualizaciones"@,
            url_actualizacion(cfg, a@),
        ),
{
}

/// A message on the update broadcast asks for the same update check whatever
/// it holds, also while print jobs are paused.
pub proof fn lema_difusion_siempre_actualiza(
    cfg: Config,
    e1: Entrada,
    e2: Entrada,
    p1: bool,
    p2: bool,
)
    ensures
        accion_mensaje(cfg, topico_difusion(cfg), e1, p1) == AccionV::Actualizar(
            url_actualizacion_propia(cfg),
        ),
        accion_mensaje(cfg, topico_difusion(cfg), e1, p1) == accion_mensaje(
            cfg,
            topico_difusion(cfg),
            e2,
            p2,
        ),
{
}

/// Off the broadcast topic, a valid command is always answered, and on its
/// own reply topic, except a print job while paused, which is dropped.
pub proof fn lema_responde_al_emisor(cfg: Config, topico: Seq<char>, c: Comando, pausado: bool)
    requires
        topico != topico_difusion(cfg),
    ensures
        match accion_mensaje(cfg, topico, Entrada::Comando(c), pausado) {
            AccionV::Responder(t, _) => t == topico_respuesta(c),
            AccionV::ListarImpresoras(t) => t == topico_respuesta(c),
            AccionV::Imprimir(t, _, _) => t == topico_respuesta(c),
            AccionV::ResponderYActualizar(t, _, _) => t == topico_respuesta(c),
            AccionV::Ninguna => c is Print && pausado,
            AccionV::Actualizar(_) => false,
        },
{
}

// ---------------------------------------------------------------------------
// Replies
// ---------------------------------------------------------------------------

/// The texts joined with `sep` between each two.
pub open spec fn unir(textos: Seq<Seq<char>>, sep: Seq<char>) -> Seq<char>
    decreases textos.len(),
{
    if textos.len() == 0 {
        Seq::empty()
    } else if textos.len() == 1 {
        textos[0]
    } else {
        unir(textos.drop_last(), sep) + sep + textos.last()
    }
}

/// The names of a list of printers.
pub open spec fn nombres(v: Seq<String>) -> Seq<Seq<char>> {
    Seq::new(v.len(), |i: int| v[i]@)
}

/// The reply to a printer list request: `[a, b, c]`, or the error text when
/// the printers could not be listed.
pub open spec fn texto_listado(impresoras: Option<Seq<Seq<char>>>) -> Seq<char> {
    match impresoras {
        Some(l) => "["@ + unir(l, ", "@) + "]"@,
        None => "Error listando impresoras"@,
    }
}

/// The reply to a printer list request.
pub fn respuesta_listado(impresoras: Option<Vec<String>>) -> (r: String)
    ensures
        r@ == texto_listado(
            match impresoras {
                Some(l) => Some(nombres(l@)),
                None => None,
            },
        ),
{
    match impresoras {
        None => "Error listando impresoras".to_owned(),
        Some(l) => {
            let mut v = caracteres("[");
            let ghost inicio = v@;
            let sep = caracteres(", ");
            let n = l.len();
            for i in 0..n
                invariant
                    n == l@.len(),
                    sep@ == ", "@,
                    v@ == inicio + unir(nombres(l@).take(i as int), ", "@),
            {
                let ghost antes = v@;
                if i > 0 {
                    anexar(&mut v, &sep);
                }
                anexar(&mut v, &caracteres(l[i].as_str()));
                assert(nombres(l@).take(i + 1).drop_last() =~= nombres(l@).take(i as int));
                assert(nombres(l@).take(i + 1).last() == l@[i as int]@);
                if i == 0 {
                    assert(nombres(l@).take(1).len() == 1);
                    assert(v@ =~= inicio + unir(nombres(l@).take(1), ", "@));
                } else {
                    assert(v@ =~= inicio + unir(nombres(l@).take(i as int), ", "@) + ", "@
                        + l@[i as int]@);
                }
            }
            assert(nombres(l@).take(n as int) =~= nombres(l@));
            anexar(&mut v, &caracteres("]"));
            cadena(&v)
        },
    }
}

/// The reply to a print job: whether it was printed.
pub open spec fn texto_impresion(exito: bool) -> Seq<char> {
    if exito {
        "Impresion exitosa"@
    } else {
        "Error al imprimir"@
    }
}

/// The reply to a print job.
pub fn respuesta_impresion(exito: bool) -> (r: String)
    ensures
        r@ == texto_impresion(exito),
{
    if exito {
        "Impresion exitosa".to_owned()
    } else {
        "Error al imprimir".to_owned()
    }
}

/// The path of the temporary PDF file of job `id`: `temp/{id}.pdf`.
pub open spec fn ruta_pdf(id: nat) -> Seq<char> {
    "temp/"@ + decimal(id) + ".pdf"@
}

/// The path of the temporary PDF file of a job.
pub fn ruta_temporal(id: u128) -> (r: String)
    ensures
        r@ == ruta_pdf(id as nat),
{
    let mut v = caracteres("temp/");
    escribir_decimal(id, &mut v);
    anexar(&mut v, &caracteres(".pdf"));
    cadena(&v)
}

} // verus!
