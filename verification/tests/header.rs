use hifitime::Epoch;
use marlu::io::header::{antenna_header, primary_header, HeaderCard, HeaderValue, Quantity};

fn key(name: &str, value: HeaderValue) -> HeaderCard {
    HeaderCard::Key { name: name.to_string(), value }
}

fn text(name: &str, value: &str) -> HeaderCard {
    key(name, HeaderValue::Text(value.to_string()))
}

fn integer(name: &str, value: i64) -> HeaderCard {
    key(name, HeaderValue::Integer(value))
}

fn decimal(name: &str, digits: i64, scale: u32) -> HeaderCard {
    key(name, HeaderValue::Decimal { digits, scale })
}

fn computed(name: &str, quantity: Quantity) -> HeaderCard {
    key(name, HeaderValue::Computed(quantity))
}

fn start_epoch() -> Epoch {
    Epoch::from_gregorian_utc(2017, 12, 1, 14, 54, 38, 0)
}

#[test]
fn primary_header_in_file_order() {
    let cards = primary_header(start_epoch(), 383, Some("ForA".to_string()), "marlu", "0.1.0");
    let expected = vec![
        decimal("BSCALE", 1, 0),
        text("PTYPE1", "UU"),
        decimal("PSCAL1", 1, 0),
        decimal("PZERO1", 0, 0),
        text("PTYPE2", "VV"),
        decimal("PSCAL2", 1, 0),
        decimal("PZERO2", 0, 0),
        text("PTYPE3", "WW"),
        decimal("PSCAL3", 1, 0),
        decimal("PZERO3", 0, 0),
        text("PTYPE4", "BASELINE"),
        decimal("PSCAL4", 1, 0),
        decimal("PZERO4", 0, 0),
        text("PTYPE5", "DATE"),
        decimal("PSCAL5", 1, 0),
        computed("PZERO5", Quantity::DateZero),
        text("DATE-OBS", "2017-12-01T00:00:00.0"),
        text("CTYPE2", "COMPLEX"),
        decimal("CRVAL2", 1, 0),
        decimal("CRPIX2", 1, 0),
        decimal("CDELT2", 1, 0),
        text("CTYPE3", "STOKES"),
        integer("CRVAL3", -5),
        integer("CDELT3", -1),
        decimal("CRPIX3", 1, 0),
        text("CTYPE4", "FREQ"),
        computed("CRVAL4", Quantity::CentreFreq),
        computed("CDELT4", Quantity::ChanWidth),
        integer("CRPIX4", 384),
        text("CTYPE5", "RA"),
        computed("CRVAL5", Quantity::PhaseCentreRa),
        integer("CDELT5", 1),
        integer("CRPIX5", 1),
        text("CTYPE6", "DEC"),
        computed("CRVAL6", Quantity::PhaseCentreDec),
        integer("CDELT6", 1),
        integer("CRPIX6", 1),
        computed("OBSRA", Quantity::PhaseCentreRa),
        computed("OBSDEC", Quantity::PhaseCentreDec),
        decimal("EPOCH", 2000, 0),
        text("OBJECT", "ForA"),
        text("TELESCOP", "MWA"),
        text("INSTRUME", "MWA"),
        HeaderCard::History("AIPS WTSCAL =  1.0".to_string()),
        HeaderCard::Comment("Created by marlu v0.1.0".to_string()),
        text("SOFTWARE", "marlu"),
        text("GITLABEL", "v0.1.0"),
    ];
    assert_eq!(cards, expected);
}

#[test]
fn primary_header_without_a_name() {
    let cards = primary_header(start_epoch(), 0, None, "writer", "1.2.3");
    assert!(cards.contains(&text("OBJECT", "Undefined")));
    assert!(cards.contains(&integer("CRPIX4", 1)));
    assert!(cards.contains(&HeaderCard::Comment("Created by writer v1.2.3".to_string())));
    assert!(cards.contains(&text("GITLABEL", "v1.2.3")));
    assert_eq!(cards.len(), 47);
}

#[test]
fn antenna_header_in_file_order() {
    let cards = antenna_header(start_epoch());
    let expected = vec![
        computed("ARRAYX", Quantity::ArrayX),
        computed("ARRAYY", Quantity::ArrayY),
        computed("ARRAYZ", Quantity::ArrayZ),
        computed("FREQ", Quantity::CentreFreq),
        text("FRAME", "ITRF"),
        computed("GSTIA0", Quantity::SiderealTime),
        decimal("DEGPDY", 360_985, 3),
        text("RDATE", "2017-12-01T00:00:00.0"),
        decimal("POLARX", 0, 0),
        decimal("POLARY", 0, 0),
        decimal("UT1UTC", 0, 0),
        decimal("DATUTC", 0, 0),
        text("TIMSYS", "UTC"),
        text("TIMESYS", "UTC"),
        text("ARRNAM", "MWA"),
        integer("NUMORB", 0),
        integer("NOPCAL", 3),
        integer("FREQID", -1),
        decimal("IATUTC", 33, 0),
        integer("EXTVER", 1),
        integer("NO_IF", 1),
        text("XYZHAND", "RIGHT"),
    ];
    assert_eq!(cards, expected);
}

#[test]
fn fixed_decimals_are_the_numbers_of_the_format() {
    let cards = antenna_header(start_epoch());
    let number = |name: &str| -> f64 {
        cards
            .iter()
            .find_map(|card| match card {
                HeaderCard::Key { name: n, value: HeaderValue::Decimal { digits, scale } }
                    if n == name =>
                {
                    Some(*digits as f64 / 10f64.powi(*scale as i32))
                }
                _ => None,
            })
            .unwrap()
    };
    assert_eq!(number("DEGPDY"), 3.60985e2);
    assert_eq!(number("IATUTC"), 33.0);
    assert_eq!(number("POLARX"), 0.0);
}
