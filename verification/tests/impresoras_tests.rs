use agent_core::impresoras::leer_impresoras;

#[test]
fn lista_de_wmic() {
    let salida = "Name                    \r\r\nEPSON TM-T20III         \r\r\nHP LaserJet Pro\r\n\r\nMicrosoft Print to PDF  \r\n\r\n";
    assert_eq!(
        leer_impresoras(salida),
        vec!["EPSON TM-T20III", "HP LaserJet Pro", "Microsoft Print to PDF"]
    );
}

#[test]
fn encabezado_en_cualquier_caso() {
    assert_eq!(leer_impresoras("NAME\nname\nNaMe\nZebra\n"), vec!["Zebra"]);
    assert_eq!(leer_impresoras("names"), vec!["names"]);
}

#[test]
fn salida_vacia() {
    assert!(leer_impresoras("").is_empty());
    assert!(leer_impresoras("\n \n\t\n").is_empty());
}
