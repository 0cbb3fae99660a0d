//! The kinds of documents that the catalogue knows, and the list of kinds
//! that an entry names.

use vstd::prelude::*;
use crate::text::{Order, capitalize, capitalized, chars_of, compare_text, is_word, text_of,
    text_order};
use crate::pattern::{all_matches, captures_iter, group, groups_of, matches_of};
use vstd::string::StringExecFns;
use crate::data::field::{Field, FieldText, FieldValue, classified, field_shown};
use crate::data::index::{Index, Line, LineText, indexed, lines_of};

verus! {

/// The kind of a document: one of the kinds that the catalogue knows, or
/// another, kept as the source names it.
#[derive(Debug, PartialEq, Eq, Hash)]
pub enum DocumentType {
    Almanaque,
    Anais,
    Anuario,
    Artigo,
    Ata,
    Atlas,
    Biografia,
    Boletim,
    Carta,
    CartaTopografica,
    Catalogo,
    Conferencia,
    Dicionario,
    Discurso,
    DocumentoJuridico,
    DocumentoOficial,
    Estatuto,
    Folheto,
    Jornal,
    Literatura,
    Livro,
    Manifesto,
    Manuscristo,
    Mapa,
    Medalha,
    Memorias,
    Moeda,
    Obra,
    Periodico,
    Poesia,
    Relatorio,
    Revista,
    Tese,
    Other(String),
}

/// The mathematical value of a `DocumentType`.
pub enum Kind {
    Almanaque,
    Anais,
    Anuario,
    Artigo,
    Ata,
    Atlas,
    Biografia,
    Boletim,
    Carta,
    CartaTopografica,
    Catalogo,
    Conferencia,
    Dicionario,
    Discurso,
    DocumentoJuridico,
    DocumentoOficial,
    Estatuto,
    Folheto,
    Jornal,
    Literatura,
    Livro,
    Manifesto,
    Manuscristo,
    Mapa,
    Medalha,
    Memorias,
    Moeda,
    Obra,
    Periodico,
    Poesia,
    Relatorio,
    Revista,
    Tese,
    Other(Seq<char>),
}

impl View for DocumentType {
    type V = Kind;

    open spec fn view(&self) -> Kind {
        match self {
            DocumentType::Almanaque => Kind::Almanaque,
            DocumentType::Anais => Kind::Anais,
            DocumentType::Anuario => Kind::Anuario,
            DocumentType::Artigo => Kind::Artigo,
            DocumentType::Ata => Kind::Ata,
            DocumentType::Atlas => Kind::Atlas,
            DocumentType::Biografia => Kind::Biografia,
            DocumentType::Boletim => Kind::Boletim,
            DocumentType::Carta => Kind::Carta,
            DocumentType::CartaTopografica => Kind::CartaTopografica,
            DocumentType::Catalogo => Kind::Catalogo,
            DocumentType::Conferencia => Kind::Conferencia,
            DocumentType::Dicionario => Kind::Dicionario,
            DocumentType::Discurso => Kind::Discurso,
            DocumentType::DocumentoJuridico => Kind::DocumentoJuridico,
            DocumentType::DocumentoOficial => Kind::DocumentoOficial,
            DocumentType::Estatuto => Kind::Estatuto,
            DocumentType::Folheto => Kind::Folheto,
            DocumentType::Jornal => Kind::Jornal,
            DocumentType::Literatura => Kind::Literatura,
            DocumentType::Livro => Kind::Livro,
            DocumentType::Manifesto => Kind::Manifesto,
            DocumentType::Manuscristo => Kind::Manuscristo,
            DocumentType::Mapa => Kind::Mapa,
            DocumentType::Medalha => Kind::Medalha,
            DocumentType::Memorias => Kind::Memorias,
            DocumentType::Moeda => Kind::Moeda,
            DocumentType::Obra => Kind::Obra,
            DocumentType::Periodico => Kind::Periodico,
            DocumentType::Poesia => Kind::Poesia,
            DocumentType::Relatorio => Kind::Relatorio,
            DocumentType::Revista => Kind::Revista,
            DocumentType::Tese => Kind::Tese,
            DocumentType::Other(s) => Kind::Other(s@),
        }
    }
}

/// The name of a kind: that of the catalogue for a kind that it knows, and
/// the text of the source for another.
pub open spec fn kind_name(k: Kind) -> Seq<char> {
    match k {
        Kind::Almanaque => "Almanaque"@,
        Kind::Anais => "Anais"@,
        Kind::Anuario => "Anuário"@,
        Kind::Artigo => "Artigo"@,
        Kind::Ata => "Ata"@,
        Kind::Atlas => "Atlas"@,
        Kind::Biografia => "Biografia"@,
        Kind::Boletim => "Boletim"@,
        Kind::Carta => "Carta"@,
        Kind::CartaTopografica => "Carta Topográfica"@,
        Kind::Catalogo => "Catalogo"@,
        Kind::Conferencia => "Conferência"@,
        Kind::Dicionario => "Dicionário"@,
        Kind::Discurso => "Discurso"@,
        Kind::DocumentoJuridico => "Documento Juridico"@,
        Kind::DocumentoOficial => "Documento Oficial"@,
        Kind::Estatuto => "Estatuto"@,
        Kind::Folheto => "Folheto"@,
        Kind::Jornal => "Jornal"@,
        Kind::Literatura => "Literatura"@,
        Kind::Livro => "Livro"@,
        Kind::Manifesto => "Manifesto"@,
        Kind::Manuscristo => "Manuscristo"@,
        Kind::Mapa => "Mapa"@,
        Kind::Medalha => "Medalha"@,
        Kind::Memorias => "Memórias"@,
        Kind::Moeda => "Moeda"@,
        Kind::Obra => "Obra"@,
        Kind::Periodico => "Periódico"@,
        Kind::Poesia => "Poesia"@,
        Kind::Relatorio => "Relatório"@,
        Kind::Revista => "Revista"@,
        Kind::Tese => "Tese"@,
        Kind::Other(s) => s,
    }
}

/// The kind that a text in small letters names. The catalogue knows each of
/// its kinds under one or more spellings; any other text names a kind of its
/// own.
pub open spec fn kind_of(t: Seq<char>) -> Kind {
    if t == "periódico"@ || t == "jornais e revistas"@ || t == "jornal e revistas"@ {
        Kind::Periodico
    } else if t == "jornal"@ || t == "jornais"@ {
        Kind::Jornal
    } else if t == "revista"@ || t == "revivsta"@ || t == "revistas"@ {
        Kind::Revista
    } else if t == "livro"@ || t == "livros"@ {
        Kind::Livro
    } else if t == "documento oficial"@ || t == "documentos oficiais"@ || t == "documento official"@ || t == "documento  oficial"@ {
        Kind::DocumentoOficial
    } else if t == "relatório"@ || t == "relatorio"@ {
        Kind::Relatorio
    } else if t == "boletim"@ {
        Kind::Boletim
    } else if t == "medalha comemorativa"@ || t == "medalha"@ {
        Kind::Medalha
    } else if t == "catálogo"@ || t == "catalogo"@ {
        Kind::Catalogo
    } else if t == "anuário"@ || t == "anuario"@ {
        Kind::Anuario
    } else if t == "manuscrito"@ || t == "manuscritos"@ || t == "manuscristo"@ {
        Kind::Manuscristo
    } else if t == "anais"@ {
        Kind::Anais
    } else if t == "discurso"@ || t == "discuro"@ || t == "discurso oficial"@ {
        Kind::Discurso
    } else if t == "dicionário"@ || t == "dicionario"@ {
        Kind::Dicionario
    } else if t == "moeda"@ {
        Kind::Moeda
    } else if t == "ata"@ || t == "acta"@ {
        Kind::Ata
    } else if t == "mapa"@ || t == "mapas"@ {
        Kind::Mapa
    } else if t == "carta"@ || t == "cartas"@ {
        Kind::Carta
    } else if t == "obra"@ {
        Kind::Obra
    } else if t == "biografia"@ {
        Kind::Biografia
    } else if t == "almanaque"@ {
        Kind::Almanaque
    } else if t == "estatuto"@ || t == "estatutos"@ {
        Kind::Estatuto
    } else if t == "conferência"@ {
        Kind::Conferencia
    } else if t == "folheto"@ {
        Kind::Folheto
    } else if t == "manifesto"@ || t == "folhetos"@ {
        Kind::Manifesto
    } else if t == "tese"@ {
        Kind::Tese
    } else if t == "atlas"@ {
        Kind::Atlas
    } else if t == "documento jurídico"@ {
        Kind::DocumentoJuridico
    } else if t == "folha topographica"@ || t == "planta topográfica"@ || t == "carta topográfica"@ {
        Kind::CartaTopografica
    } else if t == "artigos"@ || t == "artigo"@ || t == "artigos de jornal"@ {
        Kind::Artigo
    } else if t == "memórias"@ || t == "memória"@ {
        Kind::Memorias
    } else if t == "textos literários"@ || t == "literatura"@ {
        Kind::Literatura
    } else if t == "poesias"@ || t == "poema"@ {
        Kind::Poesia
    } else {
        Kind::Other(t)
    }
}

/// The text shown for a kind: the name of a kind that the catalogue knows,
/// and for another its text with the first character in upper case.
pub open spec fn kind_text(k: Kind) -> Seq<char> {
    match k {
        Kind::Other(s) => capitalized(s),
        _ => kind_name(k),
    }
}

impl DocumentType {
    /// The name of the kind.
    pub fn name(&self) -> (r: String)
        ensures
            r@ == kind_name(self@),
    {
        match self {
            DocumentType::Almanaque => "Almanaque".to_owned(),
            DocumentType::Anais => "Anais".to_owned(),
            DocumentType::Anuario => "Anuário".to_owned(),
            DocumentType::Artigo => "Artigo".to_owned(),
            DocumentType::Ata => "Ata".to_owned(),
            DocumentType::Atlas => "Atlas".to_owned(),
            DocumentType::Biografia => "Biografia".to_owned(),
            DocumentType::Boletim => "Boletim".to_owned(),
            DocumentType::Carta => "Carta".to_owned(),
            DocumentType::CartaTopografica => "Carta Topográfica".to_owned(),
            DocumentType::Catalogo => "Catalogo".to_owned(),
            DocumentType::Conferencia => "Conferência".to_owned(),
            DocumentType::Dicionario => "Dicionário".to_owned(),
            DocumentType::Discurso => "Discurso".to_owned(),
            DocumentType::DocumentoJuridico => "Documento Juridico".to_owned(),
            DocumentType::DocumentoOficial => "Documento Oficial".to_owned(),
            DocumentType::Estatuto => "Estatuto".to_owned(),
            DocumentType::Folheto => "Folheto".to_owned(),
            DocumentType::Jornal => "Jornal".to_owned(),
            DocumentType::Literatura => "Literatura".to_owned(),
            DocumentType::Livro => "Livro".to_owned(),
            DocumentType::Manifesto => "Manifesto".to_owned(),
            DocumentType::Manuscristo => "Manuscristo".to_owned(),
            DocumentType::Mapa => "Mapa".to_owned(),
            DocumentType::Medalha => "Medalha".to_owned(),
            DocumentType::Memorias => "Memórias".to_owned(),
            DocumentType::Moeda => "Moeda".to_owned(),
            DocumentType::Obra => "Obra".to_owned(),
            DocumentType::Periodico => "Periódico".to_owned(),
            DocumentType::Poesia => "Poesia".to_owned(),
            DocumentType::Relatorio => "Relatório".to_owned(),
            DocumentType::Revista => "Revista".to_owned(),
            DocumentType::Tese => "Tese".to_owned(),
            DocumentType::Other(s) => s.clone(),
        }
    }

    /// The index entry of the kind: its name.
    pub fn index(&self) -> (r: Index)
        ensures
            r@ == kind_name(self@),
    {
        let name = self.name();
        Index::new(name.as_str())
    }

    /// The kind that a text in small letters names.
    pub fn parse(s: &str) -> (r: DocumentType)
        ensures
            r@ == kind_of(s@),
    {
        let t = chars_of(s);
        if is_word(&t, "periódico") || is_word(&t, "jornais e revistas") || is_word(&t, "jornal e revistas") {
            DocumentType::Periodico
        } else if is_word(&t, "jornal") || is_word(&t, "jornais") {
            DocumentType::Jornal
        } else if is_word(&t, "revista") || is_word(&t, "revivsta") || is_word(&t, "revistas") {
            DocumentType::Revista
        } else if is_word(&t, "livro") || is_word(&t, "livros") {
            DocumentType::Livro
        } else if is_word(&t, "documento oficial") || is_word(&t, "documentos oficiais") || is_word(&t, "documento official") || is_word(&t, "documento  oficial") {
            DocumentType::DocumentoOficial
        } else if is_word(&t, "relatório") || is_word(&t, "relatorio") {
            DocumentType::Relatorio
        } else if is_word(&t, "boletim") {
            DocumentType::Boletim
        } else if is_word(&t, "medalha comemorativa") || is_word(&t, "medalha") {
            DocumentType::Medalha
        } else if is_word(&t, "catálogo") || is_word(&t, "catalogo") {
            DocumentType::Catalogo
        } else if is_word(&t, "anuário") || is_word(&t, "anuario") {
            DocumentType::Anuario
        } else if is_word(&t, "manuscrito") || is_word(&t, "manuscritos") || is_word(&t, "manuscristo") {
            DocumentType::Manuscristo
        } else if is_word(&t, "anais") {
            DocumentType::Anais
        } else if is_word(&t, "discurso") || is_word(&t, "discuro") || is_word(&t, "discurso oficial") {
            DocumentType::Discurso
        } else if is_word(&t, "dicionário") || is_word(&t, "dicionario") {
            DocumentType::Dicionario
        } else if is_word(&t, "moeda") {
            DocumentType::Moeda
        } else if is_word(&t, "ata") || is_word(&t, "acta") {
            DocumentType::Ata
        } else if is_word(&t, "mapa") || is_word(&t, "mapas") {
            DocumentType::Mapa
        } else if is_word(&t, "carta") || is_word(&t, "cartas") {
            DocumentType::Carta
        } else if is_word(&t, "obra") {
            DocumentType::Obra
        } else if is_word(&t, "biografia") {
            DocumentType::Biografia
        } else if is_word(&t, "almanaque") {
            DocumentType::Almanaque
        } else if is_word(&t, "estatuto") || is_word(&t, "estatutos") {
            DocumentType::Estatuto
        } else if is_word(&t, "conferência") {
            DocumentType::Conferencia
        } else if is_word(&t, "folheto") {
            DocumentType::Folheto
        } else if is_word(&t, "manifesto") || is_word(&t, "folhetos") {
            DocumentType::Manifesto
        } else if is_word(&t, "tese") {
            DocumentType::Tese
        } else if is_word(&t, "atlas") {
            DocumentType::Atlas
        } else if is_word(&t, "documento jurídico") {
            DocumentType::DocumentoJuridico
        } else if is_word(&t, "folha topographica") || is_word(&t, "planta topográfica") || is_word(&t, "carta topográfica") {
            DocumentType::CartaTopografica
        } else if is_word(&t, "artigos") || is_word(&t, "artigo") || is_word(&t, "artigos de jornal") {
            DocumentType::Artigo
        } else if is_word(&t, "memórias") || is_word(&t, "memória") {
            DocumentType::Memorias
        } else if is_word(&t, "textos literários") || is_word(&t, "literatura") {
            DocumentType::Literatura
        } else if is_word(&t, "poesias") || is_word(&t, "poema") {
            DocumentType::Poesia
        } else {
            DocumentType::Other(text_of(&t))
        }
    }

    /// Writes the kind as it is shown.
    pub fn render(&self) -> (r: String)
        ensures
            r@ == kind_text(self@),
    {
        match self {
            DocumentType::Other(s) => capitalize(s.as_str()),
            _ => self.name(),
        }
    }

    /// Compares two kinds by their names.
    pub fn compare(&self, other: &DocumentType) -> (r: Order)
        ensures
            r == text_order(kind_name(self@), kind_name(other@)),
    {
        let a = self.name();
        let b = other.name();
        compare_text(a.as_str(), b.as_str())
    }
}

impl FieldValue for DocumentType {
    open spec fn read(s: Seq<char>) -> Option<Kind> {
        Some(kind_of(s))
    }

    open spec fn shown(v: Kind) -> Seq<char> {
        kind_text(v)
    }

    open spec fn order(a: Kind, b: Kind) -> Order {
        text_order(kind_name(a), kind_name(b))
    }

    fn parse_value(s: &str) -> (r: Option<DocumentType>) {
        Some(DocumentType::parse(s))
    }

    fn render_value(&self) -> (r: String) {
        self.render()
    }

    fn compare_value(&self, other: &DocumentType) -> (r: Order) {
        self.compare(other)
    }
}

/// The pattern of one alternative: a kind, a qualifier in parentheses and a
/// question mark, each of them optional.
pub const ALTERNATIVE_PATTERN: &'static str = r"([^(?]+)?(?:\(([^)]+)\))?(\?)?";

/// The parts of a text between the occurrences of a separator.
pub open spec fn split(s: Seq<char>, sep: char) -> Seq<Seq<char>>
    decreases s.len(),
{
    if s.len() == 0 {
        seq![Seq::<char>::empty()]
    } else {
        let before = split(s.drop_last(), sep);
        if s.last() == sep {
            before.push(Seq::<char>::empty())
        } else {
            before.drop_last().push(before.last().push(s.last()))
        }
    }
}

/// The fields that the groups of one match give: one for each capture group
/// that took part in the match, in their order.
pub open spec fn fields_of_groups(groups: Seq<Option<Seq<char>>>) -> Seq<FieldText<Kind>>
    decreases groups.len(),
{
    if groups.len() <= 1 {
        Seq::empty()
    } else {
        let before = fields_of_groups(groups.drop_last());
        match groups.last() {
            Some(t) => before.push(classified::<DocumentType>(t)),
            None => before,
        }
    }
}

/// The fields that a run of matches gives.
pub open spec fn fields_of_matches(found: Seq<Seq<Option<Seq<char>>>>) -> Seq<FieldText<Kind>>
    decreases found.len(),
{
    if found.len() == 0 {
        Seq::empty()
    } else {
        fields_of_matches(found.drop_last()) + fields_of_groups(found.last())
    }
}

/// The fields that one part of the text gives.
pub open spec fn fields_of_part(part: Seq<char>) -> Seq<FieldText<Kind>> {
    match all_matches(ALTERNATIVE_PATTERN@, part) {
        Some(found) => fields_of_matches(found),
        None => Seq::empty(),
    }
}

/// The fields that a run of parts gives.
pub open spec fn fields_of_parts(parts: Seq<Seq<char>>) -> Seq<FieldText<Kind>>
    decreases parts.len(),
{
    if parts.len() == 0 {
        Seq::empty()
    } else {
        fields_of_parts(parts.drop_last()) + fields_of_part(parts.last())
    }
}

/// The kinds that a text names: the text is split at each slash, and each
/// part gives the fields of its matches.
pub open spec fn fields_of_text(s: Seq<char>) -> Seq<FieldText<Kind>> {
    fields_of_parts(split(s, '/'))
}

/// The values of a run of fields.
pub open spec fn fields_view(v: Vec<Field<DocumentType>>) -> Seq<FieldText<Kind>> {
    v@.map_values(|f: Field<DocumentType>| f@)
}

/// The texts of a run of parts.
pub open spec fn parts_view(v: Vec<Vec<char>>) -> Seq<Seq<char>> {
    v@.map_values(|p: Vec<char>| p@)
}

/// Splits a text at each occurrence of a separator.
pub fn split_text(s: &str, sep: char) -> (r: Vec<Vec<char>>)
    ensures
        parts_view(r) == split(s@, sep),
{
    let chars = chars_of(s);
    let mut done: Vec<Vec<char>> = Vec::new();
    let mut current: Vec<char> = Vec::new();
    let mut i: usize = 0;
    assert(chars@.take(0) == Seq::<char>::empty());
    assert(parts_view(done).push(current@) == seq![Seq::<char>::empty()]);
    while i < chars.len()
        invariant
            i <= chars.len(),
            chars@ == s@,
            parts_view(done).push(current@) == split(chars@.take(i as int), sep),
        decreases chars.len() - i,
    {
        let c: char = chars[i];
        let ghost before = parts_view(done).push(current@);
        proof {
            assert(chars@.take(i + 1).drop_last() == chars@.take(i as int));
            assert(chars@.take(i + 1).last() == c);
        }
        if c == sep {
            done.push(current);
            current = Vec::new();
            assert(parts_view(done) == before);
        } else {
            current.push(c);
            assert(parts_view(done).push(current@) == before.drop_last().push(
                before.last().push(c),
            ));
        }
        i += 1;
    }
    assert(chars@.take(chars.len() as int) == chars@);
    let ghost last = current@;
    let ghost old_done = parts_view(done);
    done.push(current);
    assert(parts_view(done) == old_done.push(last));
    done
}

/// The fields that the groups of one match give.
pub fn fields_from_groups(groups: &Vec<Option<String>>) -> (r: Vec<Field<DocumentType>>)
    ensures
        fields_view(r) == fields_of_groups(groups_of(*groups)),
{
    let mut out: Vec<Field<DocumentType>> = Vec::new();
    let ghost all = groups_of(*groups);
    if groups.len() <= 1 {
        assert(fields_view(out) == Seq::<FieldText<Kind>>::empty());
        return out;
    }
    let mut i: usize = 1;
    assert(fields_view(out) == Seq::<FieldText<Kind>>::empty());
    while i < groups.len()
        invariant
            1 <= i <= groups.len(),
            all == groups_of(*groups),
            fields_view(out) == fields_of_groups(all.take(i as int)),
        decreases groups.len() - i,
    {
        proof {
            assert(all.take(i + 1).drop_last() == all.take(i as int));
            assert(all.take(i + 1).last() == all[i as int]);
        }
        let ghost before = fields_view(out);
        match &groups[i] {
            Some(t) => {
                let f = Field::<DocumentType>::parse(t.as_str());
                out.push(f);
                assert(fields_view(out) == before.push(f@));
            },
            None => {},
        }
        i += 1;
    }
    assert(all.take(groups.len() as int) == all);
    out
}

/// The fields that a run of matches gives.
pub fn fields_from_matches(found: &Vec<Vec<Option<String>>>) -> (r: Vec<Field<DocumentType>>)
    ensures
        fields_view(r) == fields_of_matches(matches_of(*found)),
{
    let mut out: Vec<Field<DocumentType>> = Vec::new();
    let ghost all = matches_of(*found);
    let mut i: usize = 0;
    assert(fields_view(out) == Seq::<FieldText<Kind>>::empty());
    assert(all.take(0) == Seq::<Seq<Option<Seq<char>>>>::empty());
    while i < found.len()
        invariant
            i <= found.len(),
            all == matches_of(*found),
            fields_view(out) == fields_of_matches(all.take(i as int)),
        decreases found.len() - i,
    {
        proof {
            assert(all.take(i + 1).drop_last() == all.take(i as int));
            assert(all.take(i + 1).last() == all[i as int]);
        }
        let ghost before = fields_view(out);
        let mut more = fields_from_groups(&found[i]);
        let ghost added = fields_view(more);
        out.append(&mut more);
        assert(fields_view(out) == before + added);
        i += 1;
    }
    assert(all.take(found.len() as int) == all);
    out
}

/// The text of one kind of a list: the field as it is shown, and for a kind
/// that the source names its entry in the index of names.
pub open spec fn kind_entry(table: Seq<LineText>, f: FieldText<Kind>) -> Seq<char> {
    field_shown::<DocumentType>(f) + (match f {
        FieldText::Present(k) => indexed(table, kind_name(k), table.len()),
        _ => Seq::empty(),
    })
}

/// The text of a list of kinds: the kinds with a slash between them.
pub open spec fn kinds_text(table: Seq<LineText>, fields: Seq<FieldText<Kind>>) -> Seq<char>
    decreases fields.len(),
{
    if fields.len() == 0 {
        Seq::empty()
    } else if fields.len() == 1 {
        kind_entry(table, fields[0])
    } else {
        kinds_text(table, fields.drop_last()) + seq!['/'] + kind_entry(table, fields.last())
    }
}

/// The kinds that an entry names, in the order of the source.
#[derive(Debug, PartialEq, Eq, Hash)]
pub struct DocumentTypes {
    pub types: Vec<Field<DocumentType>>,
}

impl View for DocumentTypes {
    type V = Seq<FieldText<Kind>>;

    open spec fn view(&self) -> Seq<FieldText<Kind>> {
        fields_view(self.types)
    }
}

impl DocumentTypes {
    /// Reads the kinds that a text names. This never fails: a text that
    /// names none gives an empty list.
    pub fn parse(s: &str) -> (r: DocumentTypes)
        ensures
            r@ == fields_of_text(s@),
    {
        let parts = split_text(s, '/');
        let ghost all = parts_view(parts);
        let mut types: Vec<Field<DocumentType>> = Vec::new();
        let mut i: usize = 0;
        assert(fields_view(types) == Seq::<FieldText<Kind>>::empty());
        assert(all.take(0) == Seq::<Seq<char>>::empty());
        while i < parts.len()
            invariant
                i <= parts.len(),
                all == parts_view(parts),
                fields_view(types) == fields_of_parts(all.take(i as int)),
            decreases parts.len() - i,
        {
            proof {
                assert(all.take(i + 1).drop_last() == all.take(i as int));
                assert(all.take(i + 1).last() == parts@[i as int]@);
            }
            let part = text_of(&parts[i]);
            let ghost before = fields_view(types);
            match captures_iter(ALTERNATIVE_PATTERN, part.as_str()) {
                Some(found) => {
                    let mut more = fields_from_matches(&found);
                    let ghost added = fields_view(more);
                    types.append(&mut more);
                    assert(fields_view(types) == before + added);
                },
                None => {
                    assert(before + Seq::<FieldText<Kind>>::empty() == before);
                },
            }
            i += 1;
        }
        assert(all.take(parts.len() as int) == all);
        DocumentTypes { types }
    }

    /// Writes the kinds with a slash between them, each kind that the
    /// source names followed by its entry in the index of names.
    pub fn render(&self, table: &Vec<Line>) -> (r: String)
        ensures
            r@ == kinds_text(lines_of(*table), self@),
    {
        let mut out = String::new();
        let ghost all = self@;
        let mut i: usize = 0;
        assert(all.take(0) == Seq::<FieldText<Kind>>::empty());
        while i < self.types.len()
            invariant
                i <= self.types.len(),
                all == self@,
                out@ == kinds_text(lines_of(*table), all.take(i as int)),
            decreases self.types.len() - i,
        {
            proof {
                assert(all.take(i + 1).drop_last() == all.take(i as int));
                assert(all.take(i + 1).last() == self.types@[i as int]@);
            }
            if i > 0 {
                out.push('/');
            }
            let field = &self.types[i];
            out.append(field.render().as_str());
            match field {
                Field::Present(k) => {
                    out.append(k.index().render(table).as_str());
                },
                _ => {},
            }
            i += 1;
        }
        assert(all.take(self.types.len() as int) == all);
        out
    }

    /// The kinds, in the order of the source.
    pub fn into(self) -> (r: Vec<Field<DocumentType>>)
        ensures
            fields_view(r) == self@,
    {
        self.types
    }
}

} // verus!
