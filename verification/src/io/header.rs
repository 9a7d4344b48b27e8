//! The header keywords of a uvfits file, in the order in which they are
//! written.
//!
//! A header is a list of cards. Values that are text, integers or fixed
//! decimal numbers stand in the list as they are. Values that come out of
//! floating-point computations (a frequency, an angle, a Julian date) stand
//! in the list by name, and the writer puts the number in.

use vstd::prelude::*;
use vstd::string::StringExecFns;

use crate::io::uvfits::{
    get_truncated_date_string, gregorian_utc_date, group_param_name, group_params,
    indexed_key_text, object_name, reference_pixel, truncated_date_text, GroupParam,
    NUM_GROUP_PARAMS,
};

verus! {

/// A number that the writer computes and puts into the header.
#[derive(Debug, Clone, Copy, PartialEq, Eq, Structural)]
pub enum Quantity {
    /// The Julian date at the start of the day of the first timestep.
    DateZero,
    /// The centre frequency of the centre channel \[Hz\].
    CentreFreq,
    /// The width of a channel \[Hz\].
    ChanWidth,
    /// The right ascension of the phase centre \[degrees\].
    PhaseCentreRa,
    /// The declination of the phase centre \[degrees\].
    PhaseCentreDec,
    /// The geocentric x-coordinate of the array \[metres\].
    ArrayX,
    /// The geocentric y-coordinate of the array \[metres\].
    ArrayY,
    /// The geocentric z-coordinate of the array \[metres\].
    ArrayZ,
    /// The Greenwich sidereal time at the start of the day of the first
    /// timestep \[degrees\].
    SiderealTime,
}

/// The value of a header keyword.
#[derive(Debug, Clone, PartialEq, Eq)]
pub enum HeaderValue {
    /// A string.
    Text(String),
    /// An integer.
    Integer(i64),
    /// A real number with a fixed value, `digits / 10^scale`.
    Decimal { digits: i64, scale: u32 },
    /// A real number that the writer computes.
    Computed(Quantity),
}

/// One line of a header.
#[derive(Debug, Clone, PartialEq, Eq)]
pub enum HeaderCard {
    /// A keyword and its value.
    Key { name: String, value: HeaderValue },
    /// A line of history.
    History(String),
    /// A comment.
    Comment(String),
}

/// A header value as a mathematical value.
pub enum ValueView {
    Text(Seq<char>),
    Integer(int),
    Decimal { digits: int, scale: nat },
    Computed(Quantity),
}

/// A header card as a mathematical value.
pub enum CardView {
    Key { name: Seq<char>, value: ValueView },
    History(Seq<char>),
    Comment(Seq<char>),
}

impl View for HeaderValue {
    type V = ValueView;

    open spec fn view(&self) -> ValueView {
        match *self {
            HeaderValue::Text(text) => ValueView::Text(text@),
            HeaderValue::Integer(i) => ValueView::Integer(i as int),
            HeaderValue::Decimal { digits, scale } => ValueView::Decimal {
                digits: digits as int,
                scale: scale as nat,
            },
            HeaderValue::Computed(quantity) => ValueView::Computed(quantity),
        }
    }
}

impl View for HeaderCard {
    type V = CardView;

    open spec fn view(&self) -> CardView {
        match *self {
            HeaderCard::Key { name, value } => CardView::Key { name: name@, value: value@ },
            HeaderCard::History(text) => CardView::History(text@),
            HeaderCard::Comment(text) => CardView::Comment(text@),
        }
    }
}

/// The card of a keyword whose value is text.
pub open spec fn text_card(name: Seq<char>, text: Seq<char>) -> CardView {
    CardView::Key { name, value: ValueView::Text(text) }
}

/// The card of a keyword whose value is an integer.
pub open spec fn integer_card(name: Seq<char>, i: int) -> CardView {
    CardView::Key { name, value: ValueView::Integer(i) }
}

/// The card of a keyword whose value is the real number `digits / 10^scale`.
pub open spec fn decimal_card(name: Seq<char>, digits: int, scale: nat) -> CardView {
    CardView::Key { name, value: ValueView::Decimal { digits, scale } }
}

/// The card of a keyword whose value the writer computes.
pub open spec fn computed_card(name: Seq<char>, quantity: Quantity) -> CardView {
    CardView::Key { name, value: ValueView::Computed(quantity) }
}

/// The three cards of the group parameter at position `index`, counted from
/// 0: its name, its scale of 1 and its zero level, which is 0 but for the
/// date.
pub open spec fn group_param_cards(index: int) -> Seq<CardView> {
    seq![
        text_card(indexed_key_text("PTYPE"@, (index + 1) as nat), group_param_name(index)),
        decimal_card(indexed_key_text("PSCAL"@, (index + 1) as nat), 1, 0),
        if index == 4 {
            computed_card(indexed_key_text("PZERO"@, (index + 1) as nat), Quantity::DateZero)
        } else {
            decimal_card(indexed_key_text("PZERO"@, (index + 1) as nat), 0, 0)
        },
    ]
}

/// The cards of the first `count` group parameters.
pub open spec fn group_cards(count: nat) -> Seq<CardView>
    decreases count,
{
    if count == 0 {
        Seq::empty()
    } else {
        group_cards((count - 1) as nat) + group_param_cards(count - 1)
    }
}

/// The cards that describe the five data axes behind the group parameters:
/// complex, Stokes (linear polarisations, starting at XX), frequency, right
/// ascension and declination.
pub open spec fn axis_cards(centre_freq_chan: nat) -> Seq<CardView> {
    seq![
        text_card("CTYPE2"@, "COMPLEX"@),
        decimal_card("CRVAL2"@, 1, 0),
        decimal_card("CRPIX2"@, 1, 0),
        decimal_card("CDELT2"@, 1, 0),
        text_card("CTYPE3"@, "STOKES"@),
        integer_card("CRVAL3"@, -5),
        integer_card("CDELT3"@, -1),
        decimal_card("CRPIX3"@, 1, 0),
        text_card("CTYPE4"@, "FREQ"@),
        computed_card("CRVAL4"@, Quantity::CentreFreq),
        computed_card("CDELT4"@, Quantity::ChanWidth),
        integer_card("CRPIX4"@, centre_freq_chan as int + 1),
        text_card("CTYPE5"@, "RA"@),
        computed_card("CRVAL5"@, Quantity::PhaseCentreRa),
        integer_card("CDELT5"@, 1),
        integer_card("CRPIX5"@, 1),
        text_card("CTYPE6"@, "DEC"@),
        computed_card("CRVAL6"@, Quantity::PhaseCentreDec),
        integer_card("CDELT6"@, 1),
        integer_card("CRPIX6"@, 1),
    ]
}

/// The cards that say what was observed and who wrote the file.
pub open spec fn observation_cards(
    obs_name: Option<Seq<char>>,
    software: Seq<char>,
    version: Seq<char>,
) -> Seq<CardView> {
    seq![
        computed_card("OBSRA"@, Quantity::PhaseCentreRa),
        computed_card("OBSDEC"@, Quantity::PhaseCentreDec),
        decimal_card("EPOCH"@, 2000, 0),
        text_card(
            "OBJECT"@,
            match obs_name {
                Some(name) => name,
                None => "Undefined"@,
            },
        ),
        text_card("TELESCOP"@, "MWA"@),
        text_card("INSTRUME"@, "MWA"@),
        CardView::History("AIPS WTSCAL =  1.0"@),
        CardView::Comment("Created by "@ + software + " v"@ + version),
        text_card("SOFTWARE"@, software),
        text_card("GITLABEL"@, "v"@ + version),
    ]
}

/// The header of the visibilities, behind the keywords that cfitsio writes
/// when the file is created.
pub open spec fn primary_header_cards(
    date: (int, int, int),
    centre_freq_chan: nat,
    obs_name: Option<Seq<char>>,
    software: Seq<char>,
    version: Seq<char>,
) -> Seq<CardView> {
    seq![decimal_card("BSCALE"@, 1, 0)] + group_cards(NUM_GROUP_PARAMS as nat) + seq![
        text_card("DATE-OBS"@, truncated_date_text(date)),
    ] + axis_cards(centre_freq_chan) + observation_cards(obs_name, software, version)
}

/// The header of the antenna table, behind the keywords that cfitsio writes
/// when the table is created.
pub open spec fn antenna_header_cards(date: (int, int, int)) -> Seq<CardView> {
    seq![
        computed_card("ARRAYX"@, Quantity::ArrayX),
        computed_card("ARRAYY"@, Quantity::ArrayY),
        computed_card("ARRAYZ"@, Quantity::ArrayZ),
        computed_card("FREQ"@, Quantity::CentreFreq),
        text_card("FRAME"@, "ITRF"@),
        computed_card("GSTIA0"@, Quantity::SiderealTime),
        decimal_card("DEGPDY"@, 360_985, 3),
        text_card("RDATE"@, truncated_date_text(date)),
        decimal_card("POLARX"@, 0, 0),
        decimal_card("POLARY"@, 0, 0),
        decimal_card("UT1UTC"@, 0, 0),
        decimal_card("DATUTC"@, 0, 0),
        text_card("TIMSYS"@, "UTC"@),
        text_card("TIMESYS"@, "UTC"@),
        text_card("ARRNAM"@, "MWA"@),
        integer_card("NUMORB"@, 0),
        integer_card("NOPCAL"@, 3),
        integer_card("FREQID"@, -1),
        decimal_card("IATUTC"@, 33, 0),
        integer_card("EXTVER"@, 1),
        integer_card("NO_IF"@, 1),
        text_card("XYZHAND"@, "RIGHT"@),
    ]
}

fn text_key(name: &str, text: String) -> (card: HeaderCard)
    ensures
        card@ == text_card(name@, text@),
{
    HeaderCard::Key { name: name.to_owned(), value: HeaderValue::Text(text) }
}

fn fixed_text_key(name: &str, text: &str) -> (card: HeaderCard)
    ensures
        card@ == text_card(name@, text@),
{
    HeaderCard::Key { name: name.to_owned(), value: HeaderValue::Text(text.to_owned()) }
}

fn integer_key(name: &str, i: i64) -> (card: HeaderCard)
    ensures
        card@ == integer_card(name@, i as int),
{
    HeaderCard::Key { name: name.to_owned(), value: HeaderValue::Integer(i) }
}

fn decimal_key(name: &str, digits: i64, scale: u32) -> (card: HeaderCard)
    ensures
        card@ == decimal_card(name@, digits as int, scale as nat),
{
    HeaderCard::Key { name: name.to_owned(), value: HeaderValue::Decimal { digits, scale } }
}

fn computed_key(name: &str, quantity: Quantity) -> (card: HeaderCard)
    ensures
        card@ == computed_card(name@, quantity),
{
    HeaderCard::Key { name: name.to_owned(), value: HeaderValue::Computed(quantity) }
}

/// The text of a name that may be missing.
pub open spec fn option_text(name: Option<String>) -> Option<Seq<char>> {
    match name {
        Some(name) => Some(name@),
        None => None,
    }
}

/// The views of a list of cards.
pub open spec fn card_views(cards: Seq<HeaderCard>) -> Seq<CardView> {
    cards.map_values(|card: HeaderCard| card@)
}

fn push_group_cards(cards: &mut Vec<HeaderCard>)
    ensures
        card_views(final(cards)@) == card_views(old(cards)@) + group_cards(NUM_GROUP_PARAMS as nat),
{
    let params: Vec<GroupParam> = group_params();
    let ghost before = card_views(cards@);
    let mut index: usize = 0;
    assert(card_views(cards@) =~= before + group_cards(0));
    while index < params.len()
        invariant
            index <= params@.len() == NUM_GROUP_PARAMS,
            forall|i: int| 0 <= i < params@.len() ==> (#[trigger] params@[i]).is_param(i),
            card_views(cards@) == before + group_cards(index as nat),
        decreases params@.len() - index,
    {
        let param = &params[index];
        assert(param.is_param(index as int));
        let ghost so_far = card_views(cards@);
        cards.push(fixed_text_key(param.ptype_key.as_str(), param.name));
        cards.push(decimal_key(param.pscal_key.as_str(), 1, 0));
        if param.zero_is_date {
            cards.push(computed_key(param.pzero_key.as_str(), Quantity::DateZero));
        } else {
            cards.push(decimal_key(param.pzero_key.as_str(), 0, 0));
        }
        assert(card_views(cards@) =~= so_far + group_param_cards(index as int));
        assert(card_views(cards@) =~= before + group_cards((index + 1) as nat));
        index = index + 1;
    }
}

/// The header of the visibilities of a file whose first timestep is at
/// `start_epoch`, whose centre channel is `centre_freq_chan`, counted from
/// 0, and which observed `obs_name`. `software` and `version` name the
/// program that writes the file.
pub fn primary_header(
    start_epoch: hifitime::Epoch,
    centre_freq_chan: usize,
    obs_name: Option<String>,
    software: &str,
    version: &str,
) -> (cards: Vec<HeaderCard>)
    requires
        centre_freq_chan < i64::MAX,
    ensures
        card_views(cards@) == primary_header_cards(
            gregorian_utc_date(start_epoch),
            centre_freq_chan as nat,
            option_text(obs_name),
            software@,
            version@,
        ),
{
    let ghost date = gregorian_utc_date(start_epoch);
    let ghost name_view = option_text(obs_name);
    let mut cards: Vec<HeaderCard> = Vec::new();
    cards.push(decimal_key("BSCALE", 1, 0));
    assert(card_views(cards@) =~= seq![decimal_card("BSCALE"@, 1, 0)]);
    push_group_cards(&mut cards);
    cards.push(text_key("DATE-OBS", get_truncated_date_string(start_epoch)));
    let ghost head = card_views(cards@);
    assert(head =~= seq![decimal_card("BSCALE"@, 1, 0)] + group_cards(NUM_GROUP_PARAMS as nat)
        + seq![text_card("DATE-OBS"@, truncated_date_text(date))]);

    cards.push(fixed_text_key("CTYPE2", "COMPLEX"));
    cards.push(decimal_key("CRVAL2", 1, 0));
    cards.push(decimal_key("CRPIX2", 1, 0));
    cards.push(decimal_key("CDELT2", 1, 0));
    cards.push(fixed_text_key("CTYPE3", "STOKES"));
    cards.push(integer_key("CRVAL3", -5));
    cards.push(integer_key("CDELT3", -1));
    cards.push(decimal_key("CRPIX3", 1, 0));
    cards.push(fixed_text_key("CTYPE4", "FREQ"));
    cards.push(computed_key("CRVAL4", Quantity::CentreFreq));
    cards.push(computed_key("CDELT4", Quantity::ChanWidth));
    cards.push(integer_key("CRPIX4", reference_pixel(centre_freq_chan) as i64));
    cards.push(fixed_text_key("CTYPE5", "RA"));
    cards.push(computed_key("CRVAL5", Quantity::PhaseCentreRa));
    cards.push(integer_key("CDELT5", 1));
    cards.push(integer_key("CRPIX5", 1));
    cards.push(fixed_text_key("CTYPE6", "DEC"));
    cards.push(computed_key("CRVAL6", Quantity::PhaseCentreDec));
    cards.push(integer_key("CDELT6", 1));
    cards.push(integer_key("CRPIX6", 1));
    let ghost with_axes = card_views(cards@);
    assert(with_axes =~= head + axis_cards(centre_freq_chan as nat));

    let object = object_name(obs_name);
    let mut comment = "Created by ".to_owned();
    comment.append(software);
    comment.append(" v");
    comment.append(version);
    let mut label = "v".to_owned();
    label.append(version);
    cards.push(computed_key("OBSRA", Quantity::PhaseCentreRa));
    cards.push(computed_key("OBSDEC", Quantity::PhaseCentreDec));
    cards.push(decimal_key("EPOCH", 2000, 0));
    cards.push(text_key("OBJECT", object));
    cards.push(fixed_text_key("TELESCOP", "MWA"));
    cards.push(fixed_text_key("INSTRUME", "MWA"));
    cards.push(HeaderCard::History("AIPS WTSCAL =  1.0".to_owned()));
    cards.push(HeaderCard::Comment(comment));
    cards.push(fixed_text_key("SOFTWARE", software));
    cards.push(text_key("GITLABEL", label));
    assert(card_views(cards@) =~= with_axes + observation_cards(
        name_view,
        software@,
        version@,
    ));
    cards
}

/// The header of the antenna table of a file whose first timestep is at
/// `start_epoch`.
pub fn antenna_header(start_epoch: hifitime::Epoch) -> (cards: Vec<HeaderCard>)
    ensures
        card_views(cards@) == antenna_header_cards(gregorian_utc_date(start_epoch)),
{
    let mut cards: Vec<HeaderCard> = Vec::new();
    cards.push(computed_key("ARRAYX", Quantity::ArrayX));
    cards.push(computed_key("ARRAYY", Quantity::ArrayY));
    cards.push(computed_key("ARRAYZ", Quantity::ArrayZ));
    cards.push(computed_key("FREQ", Quantity::CentreFreq));
    cards.push(fixed_text_key("FRAME", "ITRF"));
    cards.push(computed_key("GSTIA0", Quantity::SiderealTime));
    cards.push(decimal_key("DEGPDY", 360_985, 3));
    cards.push(text_key("RDATE", get_truncated_date_string(start_epoch)));
    cards.push(decimal_key("POLARX", 0, 0));
    cards.push(decimal_key("POLARY", 0, 0));
    cards.push(decimal_key("UT1UTC", 0, 0));
    cards.push(decimal_key("DATUTC", 0, 0));
    cards.push(fixed_text_key("TIMSYS", "UTC"));
    cards.push(fixed_text_key("TIMESYS", "UTC"));
    cards.push(fixed_text_key("ARRNAM", "MWA"));
    cards.push(integer_key("NUMORB", 0));
    cards.push(integer_key("NOPCAL", 3));
    cards.push(integer_key("FREQID", -1));
    cards.push(decimal_key("IATUTC", 33, 0));
    cards.push(integer_key("EXTVER", 1));
    cards.push(integer_key("NO_IF", 1));
    cards.push(fixed_text_key("XYZHAND", "RIGHT"));
    assert(card_views(cards@) =~= antenna_header_cards(gregorian_utc_date(start_epoch)));
    cards
}

} // verus!
