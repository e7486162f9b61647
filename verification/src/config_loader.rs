//! Loading the configuration file: the text is decrypted when it is
//! encrypted, and a production configuration kept in plain text is to be
//! encrypted in place.
use vstd::prelude::*;

use crate::config::{es_prod, Config};
use crate::crypto::{
    descifrado, descifrar, esta_cifrado, forma_cifrada, resultado_es, texto_de_config,
    ErrorCripto, ErrorCriptoV, MAGIC_PREFIX,
};
use crate::texto::empieza_con;

verus! {

/// The name of the configuration file.
pub const CONFIG_PATH: &'static str = "config.toml";

/// The configuration written when there is none, to be filled in.
pub const CONFIG_EJEMPLO: &'static str = "# Agente AIR — Configuración a prueba de tontos
ambiente   = \"dev\"       # dev | test | prod
id_cliente = \"clienteX\"
id_punto   = \"puntoY\"

# VARIABLES AVANZADAS (Puedes dejarlas, o borrarlas y el sistema usará las fijas)
broker_url = \"mqtt://127.0.0.1\"
broker_port = 1883
update_url = \"https://updates.tudominio.com/print-agent/\"
log_level  = \"info\"
";

/// The TOML text of a configuration file: decrypted when it begins with the
/// encryption prefix, as it is otherwise.
pub fn texto_config(contenido: &str) -> (r: Result<String, ErrorCripto>)
    ensures
        resultado_es(r, texto_de_config(contenido@)),
{
    if esta_cifrado(contenido) {
        descifrar(contenido)
    } else {
        Ok(contenido.to_owned())
    }
}

/// A production configuration found in plain text is to be encrypted in place.
pub open spec fn requiere_cifrado(cfg: Config, contenido: Seq<char>) -> bool {
    es_prod(cfg.ambiente@) && !empieza_con(contenido, MAGIC_PREFIX@)
}

/// Whether the configuration file is to be encrypted in place.
pub fn debe_cifrarse(cfg: &Config, contenido: &str) -> (r: bool)
    ensures
        r == requiere_cifrado(*cfg, contenido@),
{
    cfg.ambiente.is_prod() && !esta_cifrado(contenido)
}

/// Whatever text encryption writes is not encrypted again: every text that
/// `cifrar` can give for `texto` (under any nonce) begins with the prefix.
pub proof fn lema_cifrado_estable(cfg: Config, texto: Seq<char>, nonce: Seq<u8>, cifrado: Seq<char>)
    requires
        forma_cifrada(texto, nonce) == Some(cifrado),
    ensures
        empieza_con(cifrado, MAGIC_PREFIX@),
        !requiere_cifrado(cfg, cifrado),
{
    assert(cifrado.take(MAGIC_PREFIX@.len() as int) =~= MAGIC_PREFIX@);
}

/// A configuration file that does not begin with the encryption prefix is
/// read as it is, character for character; one that begins with it is
/// decrypted.
pub proof fn lema_texto_plano_intacto(contenido: Seq<char>)
    ensures
        !empieza_con(contenido, MAGIC_PREFIX@) ==> texto_de_config(contenido) == Ok::<
            Seq<char>,
            ErrorCriptoV,
        >(contenido),
        empieza_con(contenido, MAGIC_PREFIX@) ==> texto_de_config(contenido) == descifrado(
            contenido,
        ),
{
}

/// Only a production environment (a name beginning with `prod`) found in
/// plain text is encrypted in place; `dev` and `test` never are, nor is a file
/// already encrypted.
pub proof fn lema_solo_produccion_se_cifra(cfg: Config, contenido: Seq<char>)
    ensures
        requiere_cifrado(cfg, contenido) <==> (empieza_con(cfg.ambiente@, "prod"@)
            && !empieza_con(contenido, MAGIC_PREFIX@)),
        requiere_cifrado(cfg, contenido) ==> es_prod(cfg.ambiente@),
        (cfg.ambiente@ == "dev"@ || cfg.ambiente@ == "test"@) ==> !requiere_cifrado(
            cfg,
            contenido,
        ),
{
    reveal_strlit("dev");
    reveal_strlit("test");
    reveal_strlit("prod");
    let v = cfg.ambiente@;
    if v == "dev"@ && empieza_con(v, "prod"@) {
        assert(v.take(4) != "prod"@ || v.len() < 4);
    }
    if v == "test"@ && empieza_con(v, "prod"@) {
        assert(v.take(4)[0] != "prod"@[0]);
    }
}

} // verus!
