use catalog_records::data::page::Page;
use catalog_records::data::range::Range;

fn pages(min: u32, max: u32) -> Result<Page, ()> {
    Ok(Page::from(Range::new(min, max).unwrap()))
}

#[test]
fn page_it_works() {
    let cases = [
        ("217", pages(217, 217)),
        ("282", pages(282, 282)),
        ("170", pages(170, 170)),
        ("212", pages(212, 212)),
        ("268", pages(268, 268)),
        ("258", pages(258, 258)),
        ("275", pages(275, 275)),
        ("207", pages(207, 207)),
        ("171", pages(171, 171)),
        ("237", pages(237, 237)),
        ("p.152", pages(152, 152)),
        ("229", pages(229, 229)),
        ("313", pages(313, 313)),
        ("307", pages(307, 307)),
        ("279", pages(279, 279)),
        ("233", pages(233, 233)),
        ("191", pages(191, 191)),
        ("194", pages(194, 194)),
        ("302", pages(302, 302)),
        ("298", pages(298, 298)),
        ("260", pages(260, 260)),
        ("241", pages(241, 241)),
        ("221", pages(221, 221)),
        ("285", pages(285, 285)),
        ("206", pages(206, 206)),
        ("228", pages(228, 228)),
        ("274", pages(274, 274)),
        ("290", pages(290, 290)),
        ("281", pages(281, 281)),
        ("195", pages(195, 195)),
        ("292", pages(292, 292)),
        ("238", pages(238, 238)),
        ("263", pages(263, 263)),
        ("270", pages(270, 270)),
        ("255", pages(255, 255)),
        ("175", pages(175, 175)),
        ("214", pages(214, 214)),
        ("210", pages(210, 210)),
        ("201", pages(201, 201)),
        ("296", pages(296, 296)),
        ("236", pages(236, 236)),
        ("291", pages(291, 291)),
        ("286", pages(286, 286)),
        ("278", pages(278, 278)),
        ("295", pages(295, 295)),
        ("p.151", pages(151, 151)),
        ("227", pages(227, 227)),
        ("230", pages(230, 230)),
        ("269", pages(269, 269)),
        ("256", pages(256, 256)),
        ("310", pages(310, 310)),
        ("223", pages(223, 223)),
        ("267", pages(267, 267)),
        ("311", pages(311, 311)),
        ("336", pages(336, 336)),
        ("273", pages(273, 273)),
        ("224", pages(224, 224)),
        ("252", pages(252, 252)),
        ("297", pages(297, 297)),
        ("172", pages(172, 172)),
        ("p.159", pages(159, 159)),
        ("272", pages(272, 272)),
        ("284", pages(284, 284)),
        ("219", pages(219, 219)),
        ("248", pages(248, 248)),
        ("198", pages(198, 198)),
        ("249", pages(249, 249)),
        ("211", pages(211, 211)),
        ("352", pages(352, 352)),
        ("301", pages(301, 301)),
        ("216", pages(216, 216)),
        ("280", pages(280, 280)),
        ("220", pages(220, 220)),
        ("339", pages(339, 339)),
        ("p.170", pages(170, 170)),
        ("203", pages(203, 203)),
        ("196", pages(196, 196)),
        ("215", pages(215, 215)),
        ("312", pages(312, 312)),
        ("335", pages(335, 335)),
        ("234", pages(234, 234)),
        ("174", pages(174, 174)),
        ("254", pages(254, 254)),
        ("251", pages(251, 251)),
        ("370", pages(370, 370)),
        ("213", pages(213, 213)),
        ("208", pages(208, 208)),
        ("247", pages(247, 247)),
        ("306", pages(306, 306)),
        ("250", pages(250, 250)),
        ("p.145", pages(145, 145)),
        ("287", pages(287, 287)),
        ("262", pages(262, 262)),
        ("362", pages(362, 362)),
        ("193", pages(193, 193)),
        ("p.411", pages(411, 411)),
        ("169", pages(169, 169)),
        ("331", pages(331, 331)),
        ("355", pages(355, 355)),
        ("376", pages(376, 376)),
        ("345", pages(345, 345)),
        ("p.133", pages(133, 133)),
        ("364", pages(364, 364)),
        ("209", pages(209, 209)),
        ("232", pages(232, 232)),
        ("244", pages(244, 244)),
        ("379", pages(379, 379)),
        ("328", pages(328, 328)),
        ("243", pages(243, 243)),
        ("344", pages(344, 344)),
        ("265", pages(265, 265)),
        ("341", pages(341, 341)),
        ("381", pages(381, 381)),
        ("246", pages(246, 246)),
        ("222", pages(222, 222)),
        ("p.166", pages(166, 166)),
        ("245", pages(245, 245)),
        ("338", pages(338, 338)),
        ("p.154", pages(154, 154)),
        ("p.131", pages(131, 131)),
        ("343", pages(343, 343)),
        ("p.406", pages(406, 406)),
        ("326", pages(326, 326)),
        ("p.217", pages(217, 217)),
        ("p.158", pages(158, 158)),
        ("317", pages(317, 317)),
        ("p.407", pages(407, 407)),
        ("p.397", pages(397, 397)),
        ("323", pages(323, 323)),
        ("321", pages(321, 321)),
        ("304", pages(304, 304)),
        ("378", pages(378, 378)),
        ("305", pages(305, 305)),
        ("374", pages(374, 374)),
        ("182", pages(182, 182)),
        ("p.156", pages(156, 156)),
        ("p.400", pages(400, 400)),
        ("180", pages(180, 180)),
        ("p.208", pages(208, 208)),
        ("p.408", pages(408, 408)),
        ("p.214", pages(214, 214)),
        ("p.169", pages(169, 169)),
        ("259", pages(259, 259)),
        ("p.204", pages(204, 204)),
        ("337", pages(337, 337)),
        ("p.218", pages(218, 218)),
        ("p.395", pages(395, 395)),
        ("347", pages(347, 347)),
        ("p.155", pages(155, 155)),
        ("p.168", pages(168, 168)),
        ("276", pages(276, 276)),
        ("368", pages(368, 368)),
        ("325", pages(325, 325)),
        ("365", pages(365, 365)),
        ("342", pages(342, 342)),
        ("p.460", pages(460, 460)),
        ("p.403", pages(403, 403)),
        ("p.165", pages(165, 165)),
        ("170-171", pages(170, 171)),
        ("274/275", pages(274, 275)),
        ("277/278", pages(277, 278)),
        ("281/282", pages(281, 282)),
        ("325/326", pages(325, 326)),
        ("p.406-407", pages(406, 407)),
        ("p.445", pages(445, 445)),
        ("310/311", pages(310, 311)),
        ("296/297", pages(296, 297)),
        ("204 - 205", pages(204, 205)),
        ("227 – 228", pages(227, 228)),
        ("191 e 192", pages(191, 192)),
        ("p.167-8", pages(167, 168)),
    ];

    for (resp, expec) in cases.iter().map(|(s, e)| (Page::parse(s), e)) {
        assert_eq!(resp, *expec)
    }
}

#[test]
fn page_is_written_after_its_mark() {
    assert_eq!(Page::parse("p.167-8").unwrap().render(), "p.~167–168");
    assert_eq!(Page::parse("217").unwrap().render(), "p.~217");
}

#[test]
fn page_without_a_number_is_no_page() {
    assert_eq!(Page::parse("sem número"), Err(()));
}
