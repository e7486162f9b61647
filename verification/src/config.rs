//! The agent's configuration: the validated environment name and the values
//! derived from the configuration (MQTT topics, client id, broker address,
//! update server).
use vstd::prelude::*;

use crate::texto::{
    a_minusculas, anexar, antes, antes_de, buscar, buscar_texto, cadena, caracteres, decimal,
    desde, desde_el, empieza, empieza_con, escribir_decimal, iguales, lema_antes_de,
    lema_buscar_concat, lema_buscar_desde, lema_buscar_texto_desde, lema_decimal_sin,
    lema_leer_decimal, lema_sin_prefijo, leer_puerto, leer_u16, minusculas, posicion_texto, sin,
    tramo, tras, tras_el,
};

verus! {

// ---------------------------------------------------------------------------
// Environment
// ---------------------------------------------------------------------------

/// An environment name: `dev`, `test`, `prod` or `prod_*`.
pub struct Ambiente(pub String);

impl View for Ambiente {
    type V = Seq<char>;

    open spec fn view(&self) -> Seq<char> {
        self.0@
    }
}

/// The name is a production environment (`prod`, `prod_*`).
pub open spec fn es_prod(v: Seq<char>) -> bool {
    empieza_con(v, "prod"@)
}

/// The name is `dev` or `test`.
pub open spec fn es_dev_o_test(v: Seq<char>) -> bool {
    v == "dev"@ || v == "test"@
}

/// The name is accepted as an environment: `dev`, `test`, `prod` or `prod_*`.
pub open spec fn ambiente_valido(v: Seq<char>) -> bool {
    es_dev_o_test(v) || v == "prod"@ || empieza_con(v, "prod_"@)
}

/// What reading an environment name gives: the lower-cased name when it is
/// accepted, else an error that keeps the name as given.
pub open spec fn lectura_ambiente(s: Seq<char>) -> Result<Seq<char>, Seq<char>> {
    if ambiente_valido(minusculas(s)) {
        Ok(minusculas(s))
    } else {
        Err(s)
    }
}

/// The value of a read environment.
pub open spec fn vista_lectura(r: Result<Ambiente, ErrorAmbiente>) -> Result<Seq<char>, Seq<char>> {
    match r {
        Ok(a) => Ok(a@),
        Err(e) => Err(e.valor@),
    }
}

/// The environment family: every production environment shares `prod`.
pub open spec fn entorno_base(v: Seq<char>) -> Seq<char> {
    if es_prod(v) {
        "prod"@
    } else {
        v
    }
}

/// The message text of a rejected environment name.
pub open spec fn mensaje_ambiente_invalido(valor: Seq<char>) -> Seq<char> {
    "Ambiente inválido: '"@ + valor + "'. Usar dev|test|prod|prod_*"@
}

/// An environment name that is none of `dev`, `test`, `prod`, `prod_*`.
pub struct ErrorAmbiente {
    /// The name as it was given.
    pub valor: String,
}

impl ErrorAmbiente {
    /// The error message.
    pub fn mensaje(&self) -> (r: String)
        ensures
            r@ == mensaje_ambiente_invalido(self.valor@),
    {
        let mut v = caracteres("Ambiente inválido: '");
        anexar(&mut v, &caracteres(self.valor.as_str()));
        anexar(&mut v, &caracteres("'. Usar dev|test|prod|prod_*"));
        cadena(&v)
    }
}

impl Ambiente {
    /// Accepts an environment name already lower-cased (`en_minusculas`), keeping
    /// `original` for the error.
    pub fn validar(en_minusculas: String, original: String) -> (r: Result<Ambiente, ErrorAmbiente>)
        ensures
            ambiente_valido(en_minusculas@) ==> r == Ok::<Ambiente, ErrorAmbiente>(
                Ambiente(en_minusculas),
            ),
            !ambiente_valido(en_minusculas@) ==> r == Err::<Ambiente, ErrorAmbiente>(
                ErrorAmbiente { valor: original },
            ),
    {
        let v = caracteres(en_minusculas.as_str());
        if iguales(&v, &caracteres("dev")) || iguales(&v, &caracteres("test")) || iguales(
            &v,
            &caracteres("prod"),
        ) || empieza(&v, &caracteres("prod_")) {
            Ok(Ambiente(en_minusculas))
        } else {
            Err(ErrorAmbiente { valor: original })
        }
    }

    /// Whether this is a production environment.
    pub fn is_prod(&self) -> (r: bool)
        ensures
            r == es_prod(self@),
    {
        empieza(&caracteres(self.0.as_str()), &caracteres("prod"))
    }

    /// Whether this is `dev` or `test`.
    pub fn is_dev_or_test(&self) -> (r: bool)
        ensures
            r == es_dev_o_test(self@),
    {
        let v = caracteres(self.0.as_str());
        iguales(&v, &caracteres("dev")) || iguales(&v, &caracteres("test"))
    }

    /// The environment name.
    pub fn as_str(&self) -> (r: &str)
        ensures
            r@ == self@,
    {
        self.0.as_str()
    }

    /// The environment family: `prod` for every production environment, the
    /// name itself otherwise.
    pub fn base_env(&self) -> (r: &str)
        ensures
            r@ == entorno_base(self@),
    {
        if self.is_prod() {
            "prod"
        } else {
            self.as_str()
        }
    }

    /// The environment name as a `String` (what `Display` writes).
    pub fn to_string(&self) -> (r: String)
        ensures
            r@ == self@,
    {
        self.0.clone()
    }
}

impl Ambiente {
    /// Lower-cases the name and accepts `dev`, `test`, `prod` and `prod_*`.
    pub fn try_from(s: String) -> (r: Result<Ambiente, ErrorAmbiente>)
        ensures
            vista_lectura(r) == lectura_ambiente(s@),
    {
        let lower = a_minusculas(s.as_str());
        Ambiente::validar(lower, s)
    }
}

// ---------------------------------------------------------------------------
// Configuration
// ---------------------------------------------------------------------------

/// The agent's configuration, as `config.toml` gives it.
pub struct Config {
    pub ambiente: Ambiente,
    pub id_cliente: String,
    pub id_punto: String,
    pub broker_url: Option<String>,
    pub broker_port: Option<u16>,
    pub update_url: Option<String>,
    pub log_level: Option<String>,
}

/// The topic on which the agent receives its commands:
/// `{ambiente}-{id_cliente}-{id_punto}-imp-local`.
pub open spec fn topico_suscripcion(c: Config) -> Seq<char> {
    id_cliente_mqtt(c) + "-imp-local"@
}

/// The MQTT client id: `{ambiente}-{id_cliente}-{id_punto}`.
pub open spec fn id_cliente_mqtt(c: Config) -> Seq<char> {
    c.ambiente@ + "-"@ + c.id_cliente@ + "-"@ + c.id_punto@
}

/// The topic of the update broadcast: `update-air-{base_env}`.
pub open spec fn topico_difusion(c: Config) -> Seq<char> {
    "update-air-"@ + entorno_base(c.ambiente@)
}

/// The broker address used when the configuration gives none.
pub open spec fn url_por_defecto() -> Seq<char> {
    "wss://gd5.gamasoftcol.com"@
}

/// The broker address as configured, or the default one.
pub open spec fn url_cruda(c: Config) -> Seq<char> {
    match c.broker_url {
        Some(u) => u@,
        None => url_por_defecto(),
    }
}

/// The broker is reached over secure web sockets.
pub open spec fn es_wss(c: Config) -> bool {
    empieza_con(url_cruda(c), "wss://"@)
}

/// The configured broker port, 1883 by default.
pub open spec fn puerto_configurado(c: Config) -> u16 {
    match c.broker_port {
        Some(p) => p,
        None => 1883,
    }
}

/// The port of a web socket address: the one written in the address when it
/// reads as a port, else the configured one.
pub open spec fn puerto_efectivo(c: Config, host_puerto: Seq<char>) -> u16 {
    match tras_el(host_puerto, ':') {
        Some(p) => match leer_u16(p) {
            Some(n) => n,
            None => puerto_configurado(c),
        },
        None => puerto_configurado(c),
    }
}

/// The path of a web socket address: from its first `/` on, `/mqtt` when it
/// has none.
pub open spec fn ruta_efectiva(resto: Seq<char>) -> Seq<char> {
    if desde_el(resto, '/').len() == 0 {
        "/mqtt"@
    } else {
        desde_el(resto, '/')
    }
}

/// A web socket address completed to `scheme://host:port/path`, where `resto`
/// is what follows `scheme://` in the configured address.
pub open spec fn url_ws(c: Config, esquema: Seq<char>, resto: Seq<char>) -> Seq<char> {
    let host_puerto = antes_de(resto, '/');
    esquema + "://"@ + antes_de(host_puerto, ':') + ":"@ + decimal(
        puerto_efectivo(c, host_puerto) as nat,
    ) + ruta_efectiva(resto)
}

/// Any other address reduced to its host name: without a `scheme://`, and cut
/// at its first `/` and then at its first `:`.
pub open spec fn url_tcp(raw: Seq<char>) -> Seq<char> {
    let sin_esquema = match buscar_texto(raw, "://"@) {
        Some(i) => raw.skip(i + "://"@.len()),
        None => raw,
    };
    antes_de(antes_de(sin_esquema, '/'), ':')
}

/// The broker address handed to the MQTT client.
/// A web socket address (`wss://`, `ws://`) is completed to
/// `scheme://host:port/path`; any other address is reduced to the bare host.
pub open spec fn url_broker(c: Config) -> Seq<char> {
    let raw = url_cruda(c);
    if empieza_con(raw, "wss://"@) {
        url_ws(c, "wss"@, raw.skip("wss://"@.len() as int))
    } else if empieza_con(raw, "ws://"@) {
        url_ws(c, "ws"@, raw.skip("ws://"@.len() as int))
    } else {
        url_tcp(raw)
    }
}

/// The update server for `entorno`: the configured one, or the company's
/// server for that environment.
pub open spec fn url_actualizacion(c: Config, entorno: Seq<char>) -> Seq<char> {
    match c.update_url {
        Some(u) => u@,
        None => "https://www.gamasoftcol.com/ActualizadorAIR/"@ + entorno + "/"@,
    }
}

fn url_tcp_exec(raw: &[char]) -> (r: Vec<char>)
    ensures
        r@ == url_tcp(raw@),
{
    let sep = caracteres("://");
    let n = raw.len();
    let sin_esquema = match posicion_texto(raw, &sep) {
        Some(i) => {
            proof {
                lema_buscar_texto_desde(raw@, sep@, 0);
            }
            tramo(raw, i + sep.len(), n)
        },
        None => {
            assert(raw@.subrange(0, raw@.len() as int) == raw@);
            tramo(raw, 0, n)
        },
    };
    antes(&antes(&sin_esquema, '/'), ':')
}

impl Config {
    /// The topic on which the agent receives its commands.
    pub fn topic_subscripcion(&self) -> (r: String)
        ensures
            r@ == topico_suscripcion(*self),
    {
        let mut v = self.id_cliente_chars();
        anexar(&mut v, &caracteres("-imp-local"));
        cadena(&v)
    }

    /// The MQTT client id.
    pub fn client_id_mqtt(&self) -> (r: String)
        ensures
            r@ == id_cliente_mqtt(*self),
    {
        cadena(&self.id_cliente_chars())
    }

    fn id_cliente_chars(&self) -> (r: Vec<char>)
        ensures
            r@ == id_cliente_mqtt(*self),
    {
        let mut v = caracteres(self.ambiente.as_str());
        anexar(&mut v, &caracteres("-"));
        anexar(&mut v, &caracteres(self.id_cliente.as_str()));
        anexar(&mut v, &caracteres("-"));
        anexar(&mut v, &caracteres(self.id_punto.as_str()));
        v
    }

    /// The topic of the update broadcast, shared by all production environments.
    pub fn topic_broadcast_update(&self) -> (r: String)
        ensures
            r@ == topico_difusion(*self),
    {
        let mut v = caracteres("update-air-");
        anexar(&mut v, &caracteres(self.ambiente.base_env()));
        cadena(&v)
    }

    pub(crate) fn url_cruda(&self) -> (r: Vec<char>)
        ensures
            r@ == url_cruda(*self),
    {
        match &self.broker_url {
            Some(u) => caracteres(u.as_str()),
            None => caracteres("wss://gd5.gamasoftcol.com"),
        }
    }

    /// Whether the broker is reached over secure web sockets.
    pub fn is_wss(&self) -> (r: bool)
        ensures
            r == es_wss(*self),
    {
        empieza(&self.url_cruda(), &caracteres("wss://"))
    }

    /// The broker address handed to the MQTT client.
    pub fn broker_url(&self) -> (r: String)
        ensures
            r@ == url_broker(*self),
    {
        let raw = self.url_cruda();
        let wss = caracteres("wss://");
        let ws = caracteres("ws://");
        let n = raw.len();
        if empieza(&raw, &wss) {
            cadena(&self.url_ws(caracteres("wss"), &tramo(&raw, wss.len(), n)))
        } else if empieza(&raw, &ws) {
            cadena(&self.url_ws(caracteres("ws"), &tramo(&raw, ws.len(), n)))
        } else {
            cadena(&url_tcp_exec(&raw))
        }
    }

    fn url_ws(&self, esquema: Vec<char>, resto: &[char]) -> (r: Vec<char>)
        ensures
            r@ == url_ws(*self, esquema@, resto@),
    {
        let host_puerto = antes(resto, '/');
        let ruta = desde(resto, '/');
        let puerto = match tras(&host_puerto, ':') {
            Some(p) => match leer_puerto(&p) {
                Some(n) => n,
                None => self.broker_port(),
            },
            None => self.broker_port(),
        };
        let ruta_efectiva = if ruta.len() == 0 {
            caracteres("/mqtt")
        } else {
            ruta
        };
        let mut v = esquema;
        anexar(&mut v, &caracteres("://"));
        anexar(&mut v, &antes(&host_puerto, ':'));
        anexar(&mut v, &caracteres(":"));
        escribir_decimal(puerto as u128, &mut v);
        anexar(&mut v, &ruta_efectiva);
        v
    }

    /// The configured broker port, 1883 by default.
    pub fn broker_port(&self) -> (r: u16)
        ensures
            r == puerto_configurado(*self),
    {
        match self.broker_port {
            Some(p) => p,
            None => 1883,
        }
    }

    /// The update server for `target_env`.
    pub fn update_url_for(&self, target_env: &str) -> (r: String)
        ensures
            r@ == url_actualizacion(*self, target_env@),
    {
        match &self.update_url {
            Some(u) => u.clone(),
            None => {
                let mut v = caracteres("https://www.gamasoftcol.com/ActualizadorAIR/");
                anexar(&mut v, &caracteres(target_env));
                anexar(&mut v, &caracteres("/"));
                cadena(&v)
            },
        }
    }
}

// ---------------------------------------------------------------------------
// Laws
// ---------------------------------------------------------------------------

/// An accepted environment is either a production one or `dev`/`test`, never
/// both, and its family is one of `dev`, `test`, `prod`.
pub proof fn lema_ambiente_clasificado(v: Seq<char>)
    requires
        ambiente_valido(v),
    ensures
        es_prod(v) != es_dev_o_test(v),
        entorno_base(v) == "dev"@ || entorno_base(v) == "test"@ || entorno_base(v) == "prod"@,
{
    reveal_strlit("dev");
    reveal_strlit("test");
    reveal_strlit("prod");
    reveal_strlit("prod_");
    if v == "dev"@ {
        assert(v.take(4) != "prod"@ || v.len() < 4);
    }
    if v == "test"@ {
        assert(v.take(4)[0] != "prod"@[0]);
    }
    if v == "prod"@ {
        assert(v.take(4) =~= "prod"@);
    }
    if empieza_con(v, "prod_"@) {
        assert(v.take(4) =~= "prod"@) by {
            assert forall|i: int| 0 <= i < 4 implies v.take(4)[i] == "prod"@[i] by {
                assert(v.take(5)[i] == "prod_"@[i]);
            }
        }
    }
}

/// Reading back the name of an accepted environment gives that environment
/// again, as long as lower-casing leaves the name unchanged. (The names
/// accepted are lower case already; that `str::to_lowercase` leaves such a
/// name unchanged is not stated by its documentation, so it is taken here as
/// the premise.) Reading a `&str` and reading it as a `String` give the same.
pub proof fn lema_leer_lo_mostrado(a: Seq<char>)
    requires
        ambiente_valido(a),
        minusculas(a) == a,
    ensures
        lectura_ambiente(a) == Ok::<Seq<char>, Seq<char>>(a),
{
}

/// Every production environment listens to the same update broadcast,
/// `update-air-prod`; any other environment to `update-air-{ambiente}`.
pub proof fn lema_difusion_por_familia(c: Config)
    ensures
        es_prod(c.ambiente@) ==> topico_difusion(c) == "update-air-prod"@,
        !es_prod(c.ambiente@) ==> topico_difusion(c) == "update-air-"@ + c.ambiente@,
{
    reveal_strlit("update-air-");
    reveal_strlit("prod");
    reveal_strlit("update-air-prod");
    assert("update-air-"@ + "prod"@ =~= "update-air-prod"@);
}

/// The client id and the command topic hold the environment, the client id
/// and the point id exactly as configured, joined by `-`; the command topic
/// ends in `-imp-local`; the broadcast topic is `update-air-` and the
/// environment family.
pub proof fn lema_topicos_literales(c: Config)
    ensures
        id_cliente_mqtt(c) == c.ambiente@ + seq!['-'] + c.id_cliente@ + seq!['-'] + c.id_punto@,
        topico_suscripcion(c) == c.ambiente@ + seq!['-'] + c.id_cliente@ + seq!['-']
            + c.id_punto@ + seq!['-', 'i', 'm', 'p', '-', 'l', 'o', 'c', 'a', 'l'],
        topico_difusion(c) == seq!['u', 'p', 'd', 'a', 't', 'e', '-', 'a', 'i', 'r', '-']
            + entorno_base(c.ambiente@),
        ({
            let inicio: int = c.ambiente@.len() as int + 1;
            &&& topico_suscripcion(c).subrange(inicio, inicio + c.id_cliente@.len())
                == c.id_cliente@
            &&& topico_suscripcion(c).subrange(
                inicio + c.id_cliente@.len() + 1,
                inicio + c.id_cliente@.len() + 1 + c.id_punto@.len(),
            ) == c.id_punto@
        }),
{
    reveal_strlit("-");
    reveal_strlit("-imp-local");
    reveal_strlit("update-air-");
    assert("-"@ =~= seq!['-']);
    assert("-imp-local"@ =~= seq!['-', 'i', 'm', 'p', '-', 'l', 'o', 'c', 'a', 'l']);
    assert("update-air-"@ =~= seq!['u', 'p', 'd', 'a', 't', 'e', '-', 'a', 'i', 'r', '-']);
    let t = topico_suscripcion(c);
    let inicio: int = c.ambiente@.len() as int + 1;
    assert(t.subrange(inicio, inicio + c.id_cliente@.len()) =~= c.id_cliente@);
    assert(t.subrange(
        inicio + c.id_cliente@.len() + 1,
        inicio + c.id_cliente@.len() + 1 + c.id_punto@.len(),
    ) =~= c.id_punto@);
}

/// `wss://` and `ws://` never begin the same text.
proof fn lema_esquemas_distintos(s: Seq<char>)
    ensures
        !(empieza_con(s, "wss://"@) && empieza_con(s, "ws://"@)),
{
    reveal_strlit("wss://");
    reveal_strlit("ws://");
    if empieza_con(s, "wss://"@) && empieza_con(s, "ws://"@) {
        assert(s.take(6)[2] == 's');
        assert(s.take(5)[2] == ':');
    }
}

/// A web socket address keeps its scheme: a `wss://` broker is handed over as
/// a `wss://` address, a `ws://` one as a `ws://` address.
pub proof fn lema_esquema_conservado(c: Config)
    ensures
        es_wss(c) ==> empieza_con(url_broker(c), "wss://"@),
        empieza_con(url_cruda(c), "ws://"@) ==> empieza_con(url_broker(c), "ws://"@),
{
    reveal_strlit("wss://");
    reveal_strlit("ws://");
    reveal_strlit("wss");
    reveal_strlit("ws");
    reveal_strlit("://");
    lema_esquemas_distintos(url_cruda(c));
    let u = url_broker(c);
    if es_wss(c) {
        assert(u.take(6) =~= "wss://"@);
    } else if empieza_con(url_cruda(c), "ws://"@) {
        assert(u.take(5) =~= "ws://"@);
    }
}

/// Any other address is reduced to a bare host name, with no `/` and no `:`.
pub proof fn lema_tcp_solo_host(raw: Seq<char>)
    ensures
        sin(url_tcp(raw), '/'),
        sin(url_tcp(raw), ':'),
{
    let sin_esquema = match buscar_texto(raw, "://"@) {
        Some(i) => raw.skip(i + "://"@.len()),
        None => raw,
    };
    let a = antes_de(sin_esquema, '/');
    lema_antes_de(sin_esquema, '/');
    lema_antes_de(a, ':');
    lema_sin_prefijo(a, '/', antes_de(a, ':').len() as int);
}

/// A host name without `/` and `:` is left as it is.
proof fn lema_tcp_fijo(h: Seq<char>)
    requires
        sin(h, '/'),
        sin(h, ':'),
    ensures
        url_tcp(h) == h,
        !empieza_con(h, "wss://"@),
        !empieza_con(h, "ws://"@),
{
    reveal_strlit("wss://");
    reveal_strlit("ws://");
    reveal_strlit("://");
    if empieza_con(h, "wss://"@) {
        assert(h.take(6)[3] == ':');
        assert(h[3] == ':');
    }
    if empieza_con(h, "ws://"@) {
        assert(h.take(5)[2] == ':');
        assert(h[2] == ':');
    }
    lema_buscar_texto_desde(h, "://"@, 0);
    if let Some(i) = buscar_texto(h, "://"@) {
        assert(h.subrange(i, i + 3)[0] == ':');
        assert(h[i] == ':');
    }
    lema_antes_de(h, '/');
    lema_antes_de(h, ':');
}

/// Splitting `host_puerto + ruta` at its first `/`, when only `ruta` has one
/// and begins with it.
proof fn lema_corte_ruta(hp: Seq<char>, ruta: Seq<char>)
    requires
        sin(hp, '/'),
        ruta.len() > 0,
        ruta[0] == '/',
    ensures
        antes_de(hp + ruta, '/') == hp,
        desde_el(hp + ruta, '/') == ruta,
{
    lema_antes_de(hp, '/');
    lema_buscar_concat(hp, ruta, '/');
    assert(buscar(ruta, '/') == Some(0int));
    assert((hp + ruta).take(hp.len() as int) =~= hp);
    assert((hp + ruta).skip(hp.len() as int) =~= ruta);
}

/// Splitting `host:port` at its first `:`, when the host has none.
proof fn lema_corte_puerto(host: Seq<char>, dec: Seq<char>)
    requires
        sin(host, ':'),
    ensures
        antes_de(host + ":"@ + dec, ':') == host,
        tras_el(host + ":"@ + dec, ':') == Some(dec),
{
    reveal_strlit(":");
    lema_antes_de(host, ':');
    let resto = ":"@ + dec;
    lema_buscar_concat(host, resto, ':');
    assert(buscar(resto, ':') == Some(0int));
    let hp = host + ":"@ + dec;
    assert(hp =~= host + resto);
    assert(hp.take(host.len() as int) =~= host);
    assert(hp.skip(host.len() as int + 1) =~= dec);
}

/// The pieces of a completed web socket address read back as themselves.
proof fn lema_url_ws_fija(c: Config, d: Config, esquema: Seq<char>, resto: Seq<char>)
    ensures
        ({
            let out = url_ws(c, esquema, resto);
            url_ws(d, esquema, out.skip((esquema.len() + "://"@.len()) as int)) == out
        }),
{
    reveal_strlit("://");
    reveal_strlit(":");
    reveal_strlit("/mqtt");
    let host_puerto = antes_de(resto, '/');
    let host = antes_de(host_puerto, ':');
    let p = puerto_efectivo(c, host_puerto);
    let dec = decimal(p as nat);
    let ruta = ruta_efectiva(resto);
    lema_antes_de(resto, '/');
    lema_buscar_desde(resto, '/', 0);
    lema_antes_de(host_puerto, ':');
    lema_sin_prefijo(host_puerto, '/', host.len() as int);
    lema_decimal_sin(p as nat);
    lema_leer_decimal(p);
    assert(ruta.len() > 0 && ruta[0] == '/') by {
        if desde_el(resto, '/').len() != 0 {
            assert(desde_el(resto, '/')[0] == resto[buscar(resto, '/')->0]);
        }
    }
    let hp2 = host + ":"@ + dec;
    assert(sin(hp2, '/')) by {
        assert forall|i: int| 0 <= i < hp2.len() implies #[trigger] hp2[i] != '/' by {
            if i < host.len() {
                assert(hp2[i] == host[i]);
            } else if i == host.len() {
            } else {
                assert(hp2[i] == dec[i - host.len() - 1]);
            }
        }
    }
    let out = url_ws(c, esquema, resto);
    let resto2 = hp2 + ruta;
    assert(out =~= esquema + "://"@ + resto2);
    assert(out.skip((esquema.len() + "://"@.len()) as int) =~= resto2);
    lema_corte_ruta(hp2, ruta);
    lema_corte_puerto(host, dec);
    assert(ruta_efectiva(resto2) == ruta);
    assert(puerto_efectivo(d, hp2) == p);
}

/// Normalising the broker address a second time changes nothing: the address
/// handed to the MQTT client, given back as the configured address, yields
/// itself.
pub proof fn lema_url_broker_idempotente(c: Config, d: Config)
    requires
        d.broker_url matches Some(u) && u@ == url_broker(c),
    ensures
        url_broker(d) == url_broker(c),
{
    reveal_strlit("wss://");
    reveal_strlit("ws://");
    reveal_strlit("wss");
    reveal_strlit("ws");
    reveal_strlit("://");
    let raw = url_cruda(c);
    let out = url_broker(c);
    assert(url_cruda(d) == out);
    lema_esquemas_distintos(raw);
    lema_esquemas_distintos(out);
    lema_esquema_conservado(c);
    if empieza_con(raw, "wss://"@) {
        lema_url_ws_fija(c, d, "wss"@, raw.skip(6));
    } else if empieza_con(raw, "ws://"@) {
        lema_url_ws_fija(c, d, "ws"@, raw.skip(5));
    } else {
        lema_tcp_solo_host(raw);
        lema_tcp_fijo(out);
    }
}

impl std::str::FromStr for Ambiente {
    type Err = ErrorAmbiente;

    /// Lower-cases the name and accepts `dev`, `test`, `prod` and `prod_*`.
    fn from_str(s: &str) -> (r: Result<Ambiente, ErrorAmbiente>)
        ensures
            vista_lectura(r) == lectura_ambiente(s@),
    {
        Ambiente::try_from(s.to_owned())
    }
}

} // verus!
