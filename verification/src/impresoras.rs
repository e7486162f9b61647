//! Reading the printer list that the system tool writes: one name per line,
//! under a `Name` heading.
use vstd::prelude::*;

use crate::texto::{
    a_minusculas, cadena, caracteres, es_espacio, iguales, lema_recortar_bordes, minusculas,
    recortar, recorte, separar, trozos, vistas,
};

verus! {

/// A line names a printer: it is not empty and is not the `Name` heading, in
/// any letter case.
pub open spec fn es_impresora(linea: Seq<char>) -> bool {
    linea.len() > 0 && minusculas(linea) != "name"@
}

/// The printer names among the (untrimmed) lines `lineas`, trimmed, in order.
pub open spec fn nombres_impresoras(lineas: Seq<Seq<char>>) -> Seq<Seq<char>>
    decreases lineas.len(),
{
    if lineas.len() == 0 {
        Seq::empty()
    } else {
        let l = recortar(lineas.last());
        nombres_impresoras(lineas.drop_last()) + if es_impresora(l) {
            seq![l]
        } else {
            Seq::empty()
        }
    }
}

/// The printers listed in the tool's output: its lines, trimmed, without the
/// empty ones and the heading. (Splitting at line feeds gives the lines of
/// `str::lines`, up to a carriage return at their end, which trimming removes,
/// and a last empty line, which is dropped as empty.)
pub open spec fn lista_impresoras(salida: Seq<char>) -> Seq<Seq<char>> {
    nombres_impresoras(trozos(salida, '\n'))
}

/// Every listed printer name is not empty, is not the heading in any letter
/// case, and neither begins nor ends with white space.
pub proof fn lema_nombres_limpios(lineas: Seq<Seq<char>>)
    ensures
        forall|i: int|
            0 <= i < nombres_impresoras(lineas).len() ==> {
                let n = #[trigger] nombres_impresoras(lineas)[i];
                &&& n.len() > 0
                &&& minusculas(n) != "name"@
                &&& !es_espacio(n[0])
                &&& !es_espacio(n.last())
            },
    decreases lineas.len(),
{
    if lineas.len() > 0 {
        lema_nombres_limpios(lineas.drop_last());
        let l = recortar(lineas.last());
        lema_recortar_bordes(lineas.last());
        let previos = nombres_impresoras(lineas.drop_last());
        assert forall|i: int| 0 <= i < nombres_impresoras(lineas).len() implies {
            let n = #[trigger] nombres_impresoras(lineas)[i];
            &&& n.len() > 0
            &&& minusculas(n) != "name"@
            &&& !es_espacio(n[0])
            &&& !es_espacio(n.last())
        } by {
            if i < previos.len() {
                assert(nombres_impresoras(lineas)[i] == previos[i]);
            } else {
                assert(nombres_impresoras(lineas)[i] == l);
            }
        }
    }
}

/// The list is complete and holds nothing else: every line that, trimmed,
/// is not empty and is not `name` in lower case is listed, trimmed; and every
/// listed name is such a trimmed line.
pub proof fn lema_nombres_completos(lineas: Seq<Seq<char>>)
    ensures
        forall|k: int|
            0 <= k < lineas.len() && recortar(#[trigger] lineas[k]).len() > 0 && minusculas(
                recortar(lineas[k]),
            ) != "name"@ ==> nombres_impresoras(lineas).contains(recortar(lineas[k])),
        forall|i: int|
            0 <= i < nombres_impresoras(lineas).len() ==> exists|k: int|
                0 <= k < lineas.len() && #[trigger] nombres_impresoras(lineas)[i] == recortar(
                    lineas[k],
                ),
    decreases lineas.len(),
{
    if lineas.len() > 0 {
        let previas = lineas.drop_last();
        lema_nombres_completos(previas);
        let antes = nombres_impresoras(previas);
        let todo = nombres_impresoras(lineas);
        let l = recortar(lineas.last());
        assert forall|k: int|
            0 <= k < lineas.len() && recortar(#[trigger] lineas[k]).len() > 0 && minusculas(
                recortar(lineas[k]),
            ) != "name"@ implies todo.contains(recortar(lineas[k])) by {
            if k < lineas.len() - 1 {
                assert(previas[k] == lineas[k]);
                let j = choose|j: int| 0 <= j < antes.len() && antes[j] == recortar(previas[k]);
                assert(todo[j] == antes[j]);
            } else {
                assert(todo[antes.len() as int] == l);
            }
        }
        assert forall|i: int| 0 <= i < todo.len() implies exists|k: int|
            0 <= k < lineas.len() && #[trigger] todo[i] == recortar(lineas[k]) by {
            if i < antes.len() {
                assert(todo[i] == antes[i]);
                let k = choose|k: int| 0 <= k < previas.len() && antes[i] == recortar(previas[k]);
                assert(previas[k] == lineas[k]);
            } else {
                assert(todo[i] == l);
                assert(lineas[lineas.len() - 1] == lineas.last());
            }
        }
    }
}

/// The printers listed in the tool's output.
pub fn leer_impresoras(salida: &str) -> (r: Vec<String>)
    ensures
        r@.len() == lista_impresoras(salida@).len(),
        forall|i: int| 0 <= i < r@.len() ==> #[trigger] r@[i]@ == lista_impresoras(salida@)[i],
{
    let lineas = separar(&caracteres(salida), '\n');
    let ghost ls = vistas(lineas@);
    let mut r: Vec<String> = Vec::new();
    let nombre = caracteres("name");
    let n = lineas.len();
    for i in 0..n
        invariant
            n == lineas@.len(),
            ls == vistas(lineas@),
            ls == trozos(salida@, '\n'),
            nombre@ == "name"@,
            r@.len() == nombres_impresoras(ls.take(i as int)).len(),
            forall|k: int|
                0 <= k < r@.len() ==> #[trigger] r@[k]@ == nombres_impresoras(ls.take(i as int))[k],
    {
        let l = recorte(&lineas[i]);
        assert(ls.take(i + 1).drop_last() =~= ls.take(i as int));
        assert(ls.take(i + 1).last() == lineas@[i as int]@);
        if l.len() > 0 {
            let texto = cadena(&l);
            let minus = a_minusculas(texto.as_str());
            if !iguales(&caracteres(minus.as_str()), &nombre) {
                r.push(texto);
            }
        }
    }
    assert(ls.take(n as int) =~= ls);
    r
}

} // verus!
