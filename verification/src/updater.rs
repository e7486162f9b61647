//! The over-the-air update check, as a state machine. The update server holds
//! `version.txt` (`"{version} {sha256 hex}"`) and the installer; the installer
//! is fetched only when the published version is newer, and launched only
//! when its SHA-256 digest is the published one. The caller performs the
//! downloads and the launch, and reports back.
use vstd::prelude::*;
use vstd::utf8::encode_utf8;

use crate::crypto::{resumen_sha256, sha256};
use crate::texto::{
    anexar, bytes_no_mayor, cadena, caracteres, hex, hexadecimal, iguales,
    lema_bytes_no_mayor_reflexivo, leer_numero, leer_u64, no_mayor, palabras, recortar, recorte,
    separar, separar_palabras, trozos, vistas,
};

verus! {

/// Why an update check failed.
#[derive(Debug, Clone, Copy, PartialEq, Eq, Structural)]
pub enum ErrorActualizacion {
    /// `version.txt` does not hold exactly two words.
    FormatoVersion,
    /// The downloaded installer's digest is not the published one.
    HashNoCoincide,
}

/// The message of each error.
pub open spec fn mensaje_error_actualizacion(e: ErrorActualizacion) -> Seq<char> {
    match e {
        ErrorActualizacion::FormatoVersion => "version.txt con formato inválido"@,
        ErrorActualizacion::HashNoCoincide =>
            "Hash SHA256 no coincide — posible ataque MITM o descarga corrupta. Descarga abortada."@,
    }
}

impl ErrorActualizacion {
    /// The error message.
    pub fn mensaje(&self) -> (r: String)
        ensures
            r@ == mensaje_error_actualizacion(*self),
    {
        let t = match self {
            ErrorActualizacion::FormatoVersion => "version.txt con formato inválido",
            ErrorActualizacion::HashNoCoincide =>
                "Hash SHA256 no coincide — posible ataque MITM o descarga corrupta. Descarga abortada.",
        };
        t.to_owned()
    }
}

/// The address of the published version: `{update_url}version.txt`.
pub open spec fn direccion_version(update_url: Seq<char>) -> Seq<char> {
    update_url + "version.txt"@
}

/// The address of the installer: `{update_url}PrintAgentRS_Installer.exe`.
pub open spec fn direccion_instalador(update_url: Seq<char>) -> Seq<char> {
    update_url + "PrintAgentRS_Installer.exe"@
}

/// The address of the published version.
pub fn url_version(update_url: &str) -> (r: String)
    ensures
        r@ == direccion_version(update_url@),
{
    let mut v = caracteres(update_url);
    anexar(&mut v, &caracteres("version.txt"));
    cadena(&v)
}

/// The address of the installer.
pub fn url_instalador(update_url: &str) -> (r: String)
    ensures
        r@ == direccion_instalador(update_url@),
{
    let mut v = caracteres(update_url);
    anexar(&mut v, &caracteres("PrintAgentRS_Installer.exe"));
    cadena(&v)
}

/// The numbers of a version `a.b.c`: each dot-separated part read as a
/// number; `None` when a part is not one.
pub open spec fn numeros_version(s: Seq<char>) -> Option<Seq<u64>> {
    let partes = trozos(s, '.');
    if forall|i: int| 0 <= i < partes.len() ==> (#[trigger] leer_u64(partes[i])) is Some {
        Some(Seq::new(partes.len(), |i: int| leer_u64(partes[i])->0))
    } else {
        None
    }
}

/// The `i`-th number of a version, 0 past its end (`26.1` is `26.1.0`).
pub open spec fn componente(v: Seq<u64>, i: int) -> u64 {
    if 0 <= i < v.len() {
        v[i]
    } else {
        0
    }
}

/// From the `i`-th number on, version `a` is not after version `b`.
pub open spec fn version_no_posterior_desde(a: Seq<u64>, b: Seq<u64>, i: int) -> bool
    decreases a.len() + b.len() - i,
{
    if i < 0 || (i >= a.len() && i >= b.len()) {
        true
    } else if componente(a, i) != componente(b, i) {
        componente(a, i) < componente(b, i)
    } else {
        version_no_posterior_desde(a, b, i + 1)
    }
}

/// Version `a` is not after version `b`: compared number by number, the
/// first number that differs decides.
pub open spec fn version_no_posterior(a: Seq<u64>, b: Seq<u64>) -> bool {
    version_no_posterior_desde(a, b, 0)
}

/// The published version `nueva` is not after the running version `actual`:
/// number by number when both are dot-separated numbers, else in the byte
/// order of the texts (so `26.1.2-rc1` is after `26.1.1`).
pub open spec fn version_no_posterior_texto(nueva: Seq<char>, actual: Seq<char>) -> bool {
    match (numeros_version(nueva), numeros_version(actual)) {
        (Some(n), Some(c)) => version_no_posterior(n, c),
        _ => bytes_no_mayor(encode_utf8(nueva), encode_utf8(actual)),
    }
}

/// What `version.txt` says, against the running version: an error unless it
/// holds exactly two words; nothing when its version is not after the
/// running one; else the new version and its digest.
pub open spec fn evaluacion(texto: Seq<char>, actual: Seq<char>) -> Result<
    Option<(Seq<char>, Seq<char>)>,
    ErrorActualizacion,
> {
    let partes = palabras(recortar(texto));
    if partes.len() != 2 {
        Err(ErrorActualizacion::FormatoVersion)
    } else if version_no_posterior_texto(partes[0], actual) {
        Ok(None)
    } else {
        Ok(Some((partes[0], partes[1])))
    }
}

/// The numbers of a version.
pub fn leer_version(s: &[char]) -> (r: Option<Vec<u64>>)
    ensures
        match r {
            Some(v) => numeros_version(s@) == Some(v@),
            None => numeros_version(s@) is None,
        },
{
    let partes = separar(s, '.');
    let ghost ps = vistas(partes@);
    let n = partes.len();
    let mut v: Vec<u64> = Vec::new();
    for i in 0..n
        invariant
            n == partes@.len(),
            ps == vistas(partes@),
            ps == trozos(s@, '.'),
            v@.len() == i,
            forall|k: int| 0 <= k < i ==> (#[trigger] leer_u64(ps[k])) == Some(v@[k]),
    {
        assert(ps[i as int] == partes@[i as int]@);
        match leer_numero(&partes[i]) {
            Some(x) => v.push(x),
            None => {
                assert(leer_u64(ps[i as int]) is None);
                return None;
            },
        }
    }
    assert(v@ =~= Seq::new(ps.len(), |k: int| leer_u64(ps[k])->0));
    Some(v)
}

/// Whether version `a` is not after version `b`.
pub fn no_posterior(a: &[u64], b: &[u64]) -> (r: bool)
    ensures
        r == version_no_posterior(a@, b@),
{
    let n = if a.len() > b.len() {
        a.len()
    } else {
        b.len()
    };
    for i in 0..n
        invariant
            n == a@.len() || n == b@.len(),
            a@.len() <= n,
            b@.len() <= n,
            version_no_posterior(a@, b@) == version_no_posterior_desde(a@, b@, i as int),
    {
        let x: u64 = if i < a.len() {
            a[i]
        } else {
            0
        };
        let y: u64 = if i < b.len() {
            b[i]
        } else {
            0
        };
        if x != y {
            return x < y;
        }
    }
    true
}

/// A published version newer than the running one.
pub struct NuevaVersion {
    pub version: String,
    pub hash: String,
}

/// Reads `version.txt` against the running version.
pub fn evaluar_version(texto: &str, version_actual: &str) -> (r: Result<
    Option<NuevaVersion>,
    ErrorActualizacion,
>)
    ensures
        match evaluacion(texto@, version_actual@) {
            Err(e) => r == Err::<Option<NuevaVersion>, ErrorActualizacion>(e),
            Ok(None) => r matches Ok(None),
            Ok(Some((v, h))) => r matches Ok(Some(n)) && n.version@ == v && n.hash@ == h,
        },
{
    let partes = separar_palabras(&recorte(&caracteres(texto)));
    if partes.len() != 2 {
        return Err(ErrorActualizacion::FormatoVersion);
    }
    assert(vistas(partes@)[0] == partes@[0]@);
    assert(vistas(partes@)[1] == partes@[1]@);
    let version = cadena(&partes[0]);
    let hash = cadena(&partes[1]);
    let no_es_nueva = match (leer_version(&partes[0]), leer_version(&caracteres(version_actual))) {
        (Some(nueva), Some(corriente)) => no_posterior(&nueva, &corriente),
        _ => no_mayor(version.as_str().as_bytes(), version_actual.as_bytes()),
    };
    if no_es_nueva {
        Ok(None)
    } else {
        Ok(Some(NuevaVersion { version, hash }))
    }
}

/// The installer is the published one: its SHA-256 digest, in lower-case
/// hexadecimal, is the published digest.
pub open spec fn instalador_correcto(datos: Seq<u8>, hash: Seq<char>) -> bool {
    hex(resumen_sha256(datos)) == hash
}

/// Whether a downloaded installer is the published one.
pub fn instalador_valido(datos: &[u8], hash_esperado: &str) -> (r: bool)
    ensures
        r == instalador_correcto(datos@, hash_esperado@),
{
    let resumen = sha256(datos);
    iguales(&hexadecimal(&resumen), &caracteres(hash_esperado))
}

// ---------------------------------------------------------------------------
// State machine
// ---------------------------------------------------------------------------

/// Where an update check stands.
pub enum EstadoOta {
    /// Not started.
    Inicio,
    /// Waiting for `version.txt`.
    EsperandoVersion,
    /// Waiting for the installer, which must have the digest `hash`.
    EsperandoInstalador { hash: String },
    /// Done.
    Terminado,
}

/// What the caller reports.
pub enum EventoOta {
    /// Start the check.
    Comenzar,
    /// The text of `version.txt`; `None` when it could not be fetched.
    VersionRecibida(Option<String>),
    /// The downloaded installer.
    InstaladorRecibido(Vec<u8>),
}

/// What the caller is to do.
pub enum AccionOta {
    /// Fetch `version.txt` from this address.
    PedirVersion(String),
    /// Download the installer from this address.
    PedirInstalador(String),
    /// Launch the verified installer silently and leave the process.
    Instalar,
    /// Delete the downloaded installer and fail with this error.
    DescartarYFallar(ErrorActualizacion),
    /// End the check with this result (`Ok(false)`: no update).
    Finalizar(Result<bool, ErrorActualizacion>),
    /// The event does not apply in this state.
    Nada,
}

/// An update check against one server.
pub struct Actualizacion {
    pub update_url: String,
    pub version_actual: String,
    pub estado: EstadoOta,
}

/// Where an update check stands, as values.
pub ghost enum EstadoOtaV {
    Inicio,
    EsperandoVersion,
    EsperandoInstalador(Seq<char>),
    Terminado,
}

/// What the caller reports, as values.
pub ghost enum EventoOtaV {
    Comenzar,
    VersionRecibida(Option<Seq<char>>),
    InstaladorRecibido(Seq<u8>),
}

/// What the caller is to do, as values.
pub ghost enum AccionOtaV {
    PedirVersion(Seq<char>),
    PedirInstalador(Seq<char>),
    Instalar,
    DescartarYFallar(ErrorActualizacion),
    Finalizar(Result<bool, ErrorActualizacion>),
    Nada,
}

impl View for EstadoOta {
    type V = EstadoOtaV;

    open spec fn view(&self) -> EstadoOtaV {
        match self {
            EstadoOta::Inicio => EstadoOtaV::Inicio,
            EstadoOta::EsperandoVersion => EstadoOtaV::EsperandoVersion,
            EstadoOta::EsperandoInstalador { hash } => EstadoOtaV::EsperandoInstalador(hash@),
            EstadoOta::Terminado => EstadoOtaV::Terminado,
        }
    }
}

impl View for EventoOta {
    type V = EventoOtaV;

    open spec fn view(&self) -> EventoOtaV {
        match self {
            EventoOta::Comenzar => EventoOtaV::Comenzar,
            EventoOta::VersionRecibida(t) => EventoOtaV::VersionRecibida(
                match t {
                    Some(s) => Some(s@),
                    None => None,
                },
            ),
            EventoOta::InstaladorRecibido(d) => EventoOtaV::InstaladorRecibido(d@),
        }
    }
}

impl View for AccionOta {
    type V = AccionOtaV;

    open spec fn view(&self) -> AccionOtaV {
        match self {
            AccionOta::PedirVersion(u) => AccionOtaV::PedirVersion(u@),
            AccionOta::PedirInstalador(u) => AccionOtaV::PedirInstalador(u@),
            AccionOta::Instalar => AccionOtaV::Instalar,
            AccionOta::DescartarYFallar(e) => AccionOtaV::DescartarYFallar(*e),
            AccionOta::Finalizar(r) => AccionOtaV::Finalizar(*r),
            AccionOta::Nada => AccionOtaV::Nada,
        }
    }
}

/// One step of an update check against `update_url` for the running version
/// `actual`: the next state and what the caller is to do.
pub open spec fn transicion(
    update_url: Seq<char>,
    actual: Seq<char>,
    estado: EstadoOtaV,
    evento: EventoOtaV,
) -> (EstadoOtaV, AccionOtaV) {
    match (estado, evento) {
        (EstadoOtaV::Inicio, EventoOtaV::Comenzar) => (
            EstadoOtaV::EsperandoVersion,
            AccionOtaV::PedirVersion(direccion_version(update_url)),
        ),
        (EstadoOtaV::EsperandoVersion, EventoOtaV::VersionRecibida(texto)) => match texto {
            None => (EstadoOtaV::Terminado, AccionOtaV::Finalizar(Ok(false))),
            Some(t) => match evaluacion(t, actual) {
                Err(e) => (EstadoOtaV::Terminado, AccionOtaV::Finalizar(Err(e))),
                Ok(None) => (EstadoOtaV::Terminado, AccionOtaV::Finalizar(Ok(false))),
                Ok(Some((_, h))) => (
                    EstadoOtaV::EsperandoInstalador(h),
                    AccionOtaV::PedirInstalador(direccion_instalador(update_url)),
                ),
            },
        },
        (EstadoOtaV::EsperandoInstalador(h), EventoOtaV::InstaladorRecibido(d)) => {
            if instalador_correcto(d, h) {
                (EstadoOtaV::Terminado, AccionOtaV::Instalar)
            } else {
                (
                    EstadoOtaV::Terminado,
                    AccionOtaV::DescartarYFallar(ErrorActualizacion::HashNoCoincide),
                )
            }
        },
        _ => (estado, AccionOtaV::Nada),
    }
}

impl Actualizacion {
    /// A check that has not started.
    pub fn new(update_url: String, version_actual: String) -> (r: Actualizacion)
        ensures
            r.update_url == update_url,
            r.version_actual == version_actual,
            r.estado@ == EstadoOtaV::Inicio,
    {
        Actualizacion { update_url, version_actual, estado: EstadoOta::Inicio }
    }

    /// Takes one step on a reported event.
    pub fn paso(&mut self, evento: EventoOta) -> (r: AccionOta)
        ensures
            final(self).update_url == old(self).update_url,
            final(self).version_actual == old(self).version_actual,
            (final(self).estado@, r@) == transicion(
                old(self).update_url@,
                old(self).version_actual@,
                old(self).estado@,
                evento@,
            ),
    {
        let mut estado = EstadoOta::Terminado;
        std::mem::swap(&mut estado, &mut self.estado);
        match (estado, evento) {
            (EstadoOta::Inicio, EventoOta::Comenzar) => {
                self.estado = EstadoOta::EsperandoVersion;
                AccionOta::PedirVersion(url_version(self.update_url.as_str()))
            },
            (EstadoOta::EsperandoVersion, EventoOta::VersionRecibida(texto)) => match texto {
                None => AccionOta::Finalizar(Ok(false)),
                Some(t) => match evaluar_version(t.as_str(), self.version_actual.as_str()) {
                    Err(e) => AccionOta::Finalizar(Err(e)),
                    Ok(None) => AccionOta::Finalizar(Ok(false)),
                    Ok(Some(nueva)) => {
                        self.estado = EstadoOta::EsperandoInstalador { hash: nueva.hash };
                        AccionOta::PedirInstalador(url_instalador(self.update_url.as_str()))
                    },
                },
            },
            (EstadoOta::EsperandoInstalador { hash }, EventoOta::InstaladorRecibido(datos)) => {
                if instalador_valido(&datos, hash.as_str()) {
                    AccionOta::Instalar
                } else {
                    AccionOta::DescartarYFallar(ErrorActualizacion::HashNoCoincide)
                }
            },
            (estado, _) => {
                self.estado = estado;
                AccionOta::Nada
            },
        }
    }
}

// ---------------------------------------------------------------------------
// Laws
// ---------------------------------------------------------------------------

/// The installer is launched only right after a download whose digest is the
/// one `version.txt` published, and a check that is done stays done.
pub proof fn lema_solo_instala_lo_verificado(
    url: Seq<char>,
    actual: Seq<char>,
    estado: EstadoOtaV,
    evento: EventoOtaV,
)
    ensures
        transicion(url, actual, estado, evento).1 == AccionOtaV::Instalar ==> (estado matches EstadoOtaV::EsperandoInstalador(h) && evento matches EventoOtaV::InstaladorRecibido(d)
            && instalador_correcto(d, h)),
        estado == EstadoOtaV::Terminado ==> transicion(url, actual, estado, evento) == (
            EstadoOtaV::Terminado,
            AccionOtaV::Nada,
        ),
{
}

/// The installer is fetched only when `version.txt` was read, is well formed
/// and publishes a version after the running one; the digest awaited is the
/// published one.
pub proof fn lema_solo_descarga_lo_nuevo(
    url: Seq<char>,
    actual: Seq<char>,
    estado: EstadoOtaV,
    evento: EventoOtaV,
)
    ensures
        transicion(url, actual, estado, evento).1 is PedirInstalador ==> estado
            == EstadoOtaV::EsperandoVersion,
        transicion(url, actual, estado, evento).1 is PedirInstalador ==> (evento matches EventoOtaV::VersionRecibida(
            Some(t),
        ) && ({
            let partes = palabras(recortar(t));
            &&& partes.len() == 2
            &&& !version_no_posterior_texto(partes[0], actual)
            &&& transicion(url, actual, estado, evento).0 == EstadoOtaV::EsperandoInstalador(
                partes[1],
            )
        })),
{
}

/// Version order is reflexive and total: every version is not after itself,
/// and of any two versions one is not after the other.
pub proof fn lema_orden_versiones(a: Seq<u64>, b: Seq<u64>, i: int)
    requires
        0 <= i,
    ensures
        version_no_posterior_desde(a, a, i),
        version_no_posterior_desde(a, b, i) || version_no_posterior_desde(b, a, i),
    decreases a.len() + b.len() - i,
{
    if !(i >= a.len() && i >= b.len()) {
        lema_orden_versiones(a, b, i + 1);
    }
}

/// A published version equal to the running one is no update.
pub proof fn lema_misma_version_no_actualiza(texto: Seq<char>, actual: Seq<char>)
    requires
        palabras(recortar(texto)).len() == 2,
        palabras(recortar(texto))[0] == actual,
    ensures
        evaluacion(texto, actual) == Ok::<Option<(Seq<char>, Seq<char>)>, ErrorActualizacion>(
            None,
        ),
{
    if let Some(v) = numeros_version(actual) {
        lema_orden_versiones(v, v, 0);
    } else {
        lema_bytes_no_mayor_reflexivo(encode_utf8(actual));
    }
}

} // verus!
