use catalog_records::data::ata::Ata;
use catalog_records::data::document_type::{DocumentType, DocumentTypes};
use catalog_records::data::field::Field;
use catalog_records::data::number_volume::NumberVolume;
use catalog_records::data::page::Page;
use catalog_records::data::range::Range;
use catalog_records::data::index::{find_line, render_name, Entry, Index, Line};
use catalog_records::data::{find_slot, Row, Slot};
use catalog_records::text::escape_dollars;

fn pair(k: &str, v: &str) -> (String, String) {
    (k.to_string(), v.to_string())
}

#[test]
fn each_key_fills_its_slot() {
    let mut row = Row::new();
    assert!(row.is_empty());
    assert_eq!(row.set_field(pair("Ano da Revista:", "1903")), Ok(()));
    assert_eq!(row.set_field(pair("Número/volume da revista:", "N.2 V.2")), Ok(()));
    assert_eq!(
        row.set_field(pair(
            "Número e data da Ata de sessão:",
            "5ª sessão de 17 de agosto de 1902"
        )),
        Ok(())
    );
    assert_eq!(row.set_field(pair("Página:", "p.138")), Ok(()));
    assert_eq!(row.set_field(pair("Tipo de documento:", "Revista / Jornal")), Ok(()));
    assert_eq!(row.set_field(pair("Título completo do manuscrito:", "Revista do IAGP")), Ok(()));
    assert_eq!(row.set_field(pair("Quem doou?:", "1º secretário do IAGP")), Ok(()));
    assert_eq!(
        row.set_field(pair("Qual a temporalidade do documento:", "Não mencionado")),
        Ok(())
    );
    assert!(!row.is_empty());
    assert_eq!(row.year, Some(Field::Present(Range::single(1903))));
    assert_eq!(
        row.number_volume,
        Some(Field::Present(
            NumberVolume::new(Some(Range::single(2)), Some(Range::single(2))).unwrap()
        ))
    );
    assert_eq!(
        row.ata,
        Some(Field::Present(Ata::parse("5ª sessão de 17 de agosto de 1902").unwrap()))
    );
    assert_eq!(row.page, Some(Field::Present(Page::from(Range::single(138)))));
    assert_eq!(
        row.kind,
        Some(DocumentTypes {
            types: vec![
                Field::Present(DocumentType::Revista),
                Field::Present(DocumentType::Jornal)
            ]
        })
    );
    assert_eq!(row.title, Some(Field::Present("Revista do IAGP".to_string())));
    assert_eq!(row.doner, Some(Field::Present("1º secretário do IAGP".to_string())));
    assert_eq!(row.time, Some(Field::Absent));
    for slot in [
        Slot::Year,
        Slot::NumberVolume,
        Slot::Ata,
        Slot::Page,
        Slot::Kind,
        Slot::Title,
        Slot::Doner,
        Slot::Time,
    ] {
        assert!(row.has(slot));
    }
}

#[test]
fn a_filled_slot_is_not_written_again() {
    let mut row = Row::new();
    assert_eq!(row.set_field(pair("Ano", "1903")), Ok(()));
    assert_eq!(row.set_field(pair("  ANO da revista ", " 1904 ")), Err(pair("ano da revista", "1904")));
    assert_eq!(row.year, Some(Field::Present(Range::single(1903))));
    assert_eq!(row.set_field(pair("Tipo", "Revista")), Ok(()));
    assert_eq!(row.set_field(pair("Tipo", "Jornal")), Err(pair("tipo", "Jornal")));
}

#[test]
fn an_unknown_key_changes_nothing() {
    let mut row = Row::new();
    assert_eq!(row.set_field(pair("Observação", "nada")), Ok(()));
    assert_eq!(row.set_field(pair("", "")), Ok(()));
    assert!(row.is_empty());
    assert_eq!(row, Row::new());
}

#[test]
fn keys_are_matched_in_small_letters() {
    assert_eq!(find_slot("ano da revista"), Some(Slot::Year));
    assert_eq!(find_slot("número e data da ata de sessão"), Some(Slot::Ata));
    assert_eq!(find_slot("data"), Some(Slot::Ata));
    assert_eq!(find_slot("numero"), Some(Slot::NumberVolume));
    assert_eq!(find_slot("número/volume"), Some(Slot::NumberVolume));
    assert_eq!(find_slot("página"), Some(Slot::Page));
    assert_eq!(find_slot("pagina"), Some(Slot::Page));
    assert_eq!(find_slot("tipo de documento"), Some(Slot::Kind));
    assert_eq!(find_slot("título"), Some(Slot::Title));
    assert_eq!(find_slot("titulo"), Some(Slot::Title));
    assert_eq!(find_slot("quem doou?"), Some(Slot::Doner));
    assert_eq!(find_slot("qual a temporalidade"), Some(Slot::Time));
    assert_eq!(find_slot("Ano"), None);
    assert_eq!(find_slot("an"), None);
    assert_eq!(find_slot(""), None);
    let mut row = Row::new();
    assert_eq!(row.set_field(pair("PÁGINA", "12")), Ok(()));
    assert_eq!(row.page, Some(Field::Present(Page::from(Range::single(12)))));
}

#[test]
fn a_value_that_does_not_conform_is_kept() {
    let mut row = Row::new();
    assert_eq!(row.set_field(pair("Ano", " sem data ")), Ok(()));
    assert_eq!(row.year, Some(Field::NotStandard("sem data".to_string())));
    assert_eq!(row.set_field(pair("Página", "?")), Ok(()));
    assert_eq!(row.page, Some(Field::Absent));
}

#[test]
fn a_record_is_shown_as_a_table() {
    let names = vec![
        Line {
            spellings: vec!["1º secretário do IAGP".to_string()],
            entry: Entry::Parts(vec!["IAGP".to_string()]),
        },
        Line {
            spellings: vec!["Governo do Estado".to_string(), "Governador do Estado".to_string()],
            entry: Entry::Nothing,
        },
        Line {
            spellings: vec!["Tavares de Lyra e Vicente de Lemos".to_string()],
            entry: Entry::Several(vec![
                "Augusto Tavares de Lyra".to_string(),
                "Vicente Lemos".to_string(),
            ]),
        },
        Line {
            spellings: vec!["Augusto Tavares de Lyra".to_string(), "Tavares de Lyra".to_string()],
            entry: Entry::Parts(vec!["Lyra".to_string(), "Augusto Tavares de".to_string()]),
        },
    ];
    let mut row = Row::new();
    assert_eq!(row.render(&names), "\\begin{tabularx}{\\linewidth}{| p{.4545\\linewidth} | p{.4625\\linewidth} |}\n    \\hline\n\\end{tabularx}");
    assert_eq!(row.set_field(pair("Ano da Revista:", "1903")), Ok(()));
    assert_eq!(row.set_field(pair("Número/volume:", "N.1-2 V.2")), Ok(()));
    assert_eq!(row.set_field(pair("Ata:", "5ª sessão de 17 de agosto de 1902")), Ok(()));
    assert_eq!(row.set_field(pair("Página:", "p.138-9")), Ok(()));
    assert_eq!(row.set_field(pair("Tipo de documento:", "Revista / drama (?)")), Ok(()));
    assert_eq!(row.set_field(pair("Título:", "Custo: 5$000")), Ok(()));
    assert_eq!(row.set_field(pair("Quem doou?:", "1º secretário do IAGP")), Ok(()));
    assert_eq!(row.set_field(pair("Qual a temporalidade:", "Não mencionado")), Ok(()));
    let expected = [
        "\\begin{tabularx}{\\linewidth}{| p{.4545\\linewidth} | p{.4625\\linewidth} |}",
        "    \\hline",
        "    \\hfill Ano da revista & 1903 \\\\",
        "    \\hline",
        "    \\hfill Número/volume da revista & n.~1–2, v.~2 \\\\",
        "    \\hline",
        "    \\hfill Nº e data da ata de sessão & 5ª sess. ord. de 17 ago. 1902 \\\\",
        "    \\hline",
        "    \\hfill Página(s) & p.~138–139 \\\\",
        "    \\hline",
        "    \\hfill Tipo de documento & Revista\\index{Revista}/Drama\\index{Drama}/--- \\\\",
        "    \\hline",
        "    \\hfill Título completo do documento & Custo: 5\\$000 \\\\",
        "    \\hline",
        "    \\hfill Quem doou? & 1º secretário do IAGP\\index{IAGP} \\\\",
        "    \\hline",
        "    \\hfill Temporalidade do documento & --- \\\\",
        "    \\hline",
        "\\end{tabularx}",
    ]
    .join("\n");
    assert_eq!(row.render(&names), expected);
}

#[test]
fn names_are_looked_up_in_the_table() {
    let line = |spellings: &[&str], entry: Entry| Line {
        spellings: spellings.iter().map(|s| s.to_string()).collect(),
        entry,
    };
    let texts = |t: &[&str]| -> Vec<String> { t.iter().map(|s| s.to_string()).collect() };
    let names = vec![
        line(&["Governo do Estado", "Governador do Estado"], Entry::Nothing),
        line(&["Tavares de Lyra e Vicente de Lemos"], Entry::Several(texts(&["Tavares de Lyra", "Vicente Lemos", "Governo do Estado"]))),
        line(&["Augusto Tavares de Lyra", "Tavares de Lyra"], Entry::Parts(texts(&["Lyra", "Augusto Tavares de"]))),
        line(&["Tavares de Lyra"], Entry::Nothing),
        line(&["Eco"], Entry::Several(texts(&["Eco"]))),
    ];
    assert_eq!(find_line(&names, "Governador do Estado"), Some(0));
    assert_eq!(find_line(&names, "Tavares de Lyra"), Some(2));
    assert_eq!(find_line(&names, "Vicente Lemos"), None);
    assert_eq!(find_line(&vec![], "Vicente Lemos"), None);
    assert_eq!(Index::new("").render(&names), "");
    assert_eq!(Index::new("Governo do Estado").render(&names), "");
    assert_eq!(Index::new("Tavares de Lyra").render(&names), "\\index{Lyra!Augusto Tavares de}");
    assert_eq!(Index::new("vicente Lemos").render(&names), "\\index{Vicente!Lemos}");
    assert_eq!(
        Index::new("Tavares de Lyra e Vicente de Lemos").render(&names),
        "\\index{Lyra!Augusto Tavares de}\\index{Vicente!Lemos}"
    );
    assert_eq!(Index::new("Eco").render(&names), "");
    assert_eq!(render_name(&names, "Tavares de Lyra e Vicente de Lemos", 0), "");
    assert_eq!(render_name(&names, "Tavares de Lyra", 0), "\\index{Lyra!Augusto Tavares de}");
    assert_eq!(Index::new("Natal").render(&vec![]), "\\index{Natal}");
}

#[test]
fn kinds_are_shown_with_their_index_entries() {
    let kinds = DocumentTypes::parse("boletim / documentos oficiais (a conferir)");
    assert_eq!(
        kinds.render(&vec![]),
        "Boletim\\index{Boletim}/Documento Oficial\\index{Documento!Oficial}/---"
    );
    assert_eq!(DocumentTypes::parse("").render(&vec![]), "");
    assert_eq!(DocumentTypes::parse("?").render(&vec![]), "---");
}

#[test]
fn dollars_are_escaped() {
    assert_eq!(escape_dollars("5$000 e $"), "5\\$000 e \\$");
    assert_eq!(escape_dollars("sem cifrão"), "sem cifrão");
    assert_eq!(escape_dollars(""), "");
}
