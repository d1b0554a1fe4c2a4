use album_label::parsers::parse_artist;
use album_label::parsers::ALBUM_NAME;
use album_label::parsers::ARTIST;
use album_label::parsers::MEDIA;
use album_label::parsers::YEAR;

#[test]
fn simple_album() {
    let album = parse_artist(r"Prince - Parade (1980) [FLAC]");

    assert_eq!(album.get(ARTIST).unwrap(), &Some(String::from("Prince")));
    assert_eq!(album.get(ALBUM_NAME).unwrap(), &Some(String::from("Parade")));
    assert_eq!(album.get(YEAR).unwrap(), &Some(String::from("1980")));
    assert_eq!(album.get(MEDIA).unwrap(), &Some(String::from("FLAC")));
}

#[test]
fn album_title_with_number() {
    let album = parse_artist(r"Prince - 13 (1980) [FLAC]");

    assert_eq!(album.get(ARTIST).unwrap(), &Some(String::from("Prince")));
    assert_eq!(album.get(ALBUM_NAME).unwrap(), &Some(String::from("13")));
    assert_eq!(album.get(YEAR).unwrap(), &Some(String::from("1980")));
    assert_eq!(album.get(MEDIA).unwrap(), &Some(String::from("FLAC")));
}

#[test]
fn album_title_with_number_and_tilde() {
    let album = parse_artist(r"Prince - 20 chansons d´or (1980) [FLAC]");

    assert_eq!(album.get(ARTIST).unwrap(), &Some(String::from("Prince")));
    assert_eq!(album.get(ALBUM_NAME).unwrap(), &Some(String::from(r"20 chansons d´or")));
    assert_eq!(album.get(YEAR).unwrap(), &Some(String::from("1980")));
    assert_eq!(album.get(MEDIA).unwrap(), &Some(String::from("FLAC")));
}

#[test]
fn album_title_with_number_and_ampersand() {
    let album = parse_artist(r"Prince - 3 & 3 (1980) [FLAC]");

    assert_eq!(album.get(ARTIST).unwrap(), &Some(String::from("Prince")));
    assert_eq!(album.get(ALBUM_NAME).unwrap(), &Some(String::from(r"3 & 3")));
    assert_eq!(album.get(YEAR).unwrap(), &Some(String::from("1980")));
    assert_eq!(album.get(MEDIA).unwrap(), &Some(String::from("FLAC")));
}

#[test]
fn album_title_with_number_tildes_and_commas() {
    let album = parse_artist(r"Prince - 50,000,000 Elvis Fans Can´t Be Wrong (1980) [FLAC]");

    assert_eq!(album.get(ARTIST).unwrap(), &Some(String::from("Prince")));
    assert_eq!(
        album.get(ALBUM_NAME).unwrap(),
        &Some(String::from(r"50,000,000 Elvis Fans Can´t Be Wrong"))
    );
    assert_eq!(album.get(YEAR).unwrap(), &Some(String::from("1980")));
    assert_eq!(album.get(MEDIA).unwrap(), &Some(String::from("FLAC")));
}

#[test]
fn album_title_with_minus() {
    let album = parse_artist(r"Prince - All-Time Greatest Hits (1980) [FLAC]");

    assert_eq!(album.get(ARTIST).unwrap(), &Some(String::from("Prince")));
    assert_eq!(album.get(ALBUM_NAME).unwrap(), &Some(String::from(r"All-Time Greatest Hits")));
    assert_eq!(album.get(YEAR).unwrap(), &Some(String::from("1980")));
    assert_eq!(album.get(MEDIA).unwrap(), &Some(String::from("FLAC")));
}

#[test]
fn album_title_with_parenthesis() {
    let album = parse_artist(r"Prince - Anos de Soledad (Live) (1980) [FLAC]");

    assert_eq!(album.get(ARTIST).unwrap(), &Some(String::from("Prince")));
    assert_eq!(album.get(ALBUM_NAME).unwrap(), &Some(String::from(r"Anos de Soledad (Live)")));
    assert_eq!(album.get(YEAR).unwrap(), &Some(String::from("1980")));
    assert_eq!(album.get(MEDIA).unwrap(), &Some(String::from("FLAC")));
}

#[test]
fn leading_separator_has_no_artist() {
    let album = parse_artist(r" - Parade");

    assert_eq!(album.get(ARTIST).unwrap(), &None);
    assert_eq!(album.get(ALBUM_NAME).unwrap(), &None);
    assert_eq!(album.get(YEAR).unwrap(), &None);
    assert_eq!(album.get(MEDIA).unwrap(), &None);
}

#[test]
fn unshaped_label_has_no_fields() {
    let album = parse_artist(r"no separator anywhere in this label");

    assert_eq!(album.len(), 4);
    assert_eq!(album.get(ARTIST).unwrap(), &None);
    assert_eq!(album.get(ALBUM_NAME).unwrap(), &None);
    assert_eq!(album.get(YEAR).unwrap(), &None);
    assert_eq!(album.get(MEDIA).unwrap(), &None);
}

#[test]
fn empty_label_has_no_fields() {
    let album = parse_artist(r"");

    assert_eq!(album.len(), 4);
    assert_eq!(album.get(ARTIST).unwrap(), &None);
    assert_eq!(album.get(ALBUM_NAME).unwrap(), &None);
    assert_eq!(album.get(YEAR).unwrap(), &None);
    assert_eq!(album.get(MEDIA).unwrap(), &None);
}

#[test]
fn media_tag_dd() {
    let album = parse_artist(r"Prince - Parade (1980) [DD]");

    assert_eq!(album.get(ARTIST).unwrap(), &Some(String::from("Prince")));
    assert_eq!(album.get(ALBUM_NAME).unwrap(), &Some(String::from("Parade")));
    assert_eq!(album.get(YEAR).unwrap(), &Some(String::from("1980")));
    assert_eq!(album.get(MEDIA).unwrap(), &Some(String::from("DD")));
}

#[test]
fn unknown_media_tag_has_no_fields() {
    let album = parse_artist(r"Prince - Parade (1980) [MP3]");

    assert_eq!(album.get(ARTIST).unwrap(), &None);
    assert_eq!(album.get(ALBUM_NAME).unwrap(), &None);
    assert_eq!(album.get(YEAR).unwrap(), &None);
    assert_eq!(album.get(MEDIA).unwrap(), &None);
}

#[test]
fn year_must_be_four_digits() {
    let five = parse_artist(r"Prince - Parade (19800) [FLAC]");
    let three = parse_artist(r"Prince - Parade (198) [FLAC]");

    assert_eq!(five.get(YEAR).unwrap(), &None);
    assert_eq!(five.get(ARTIST).unwrap(), &None);
    assert_eq!(three.get(YEAR).unwrap(), &None);
    assert_eq!(three.get(ARTIST).unwrap(), &None);
}

#[test]
fn separator_without_padding() {
    let album = parse_artist(r"Prince-Parade (1980) [FLAC]");

    assert_eq!(album.get(ARTIST).unwrap(), &Some(String::from("Prince")));
    assert_eq!(album.get(ALBUM_NAME).unwrap(), &Some(String::from("Parade")));
    assert_eq!(album.get(YEAR).unwrap(), &Some(String::from("1980")));
    assert_eq!(album.get(MEDIA).unwrap(), &Some(String::from("FLAC")));
}

#[test]
fn surrounding_garbage_is_ignored() {
    let album = parse_artist(r"!! Prince - Parade (1980) [FLAC] leftover");

    assert_eq!(album.get(ARTIST).unwrap(), &Some(String::from("Prince")));
    assert_eq!(album.get(ALBUM_NAME).unwrap(), &Some(String::from("Parade")));
    assert_eq!(album.get(YEAR).unwrap(), &Some(String::from("1980")));
    assert_eq!(album.get(MEDIA).unwrap(), &Some(String::from("FLAC")));
}

#[test]
fn artist_is_the_word_run_before_the_separator() {
    let album = parse_artist(r"one two - three (1980) [FLAC]");

    assert_eq!(album.get(ARTIST).unwrap(), &Some(String::from("two")));
    assert_eq!(album.get(ALBUM_NAME).unwrap(), &Some(String::from("three")));
    assert_eq!(album.get(YEAR).unwrap(), &Some(String::from("1980")));
    assert_eq!(album.get(MEDIA).unwrap(), &Some(String::from("FLAC")));
}

#[test]
fn two_parenthetical_qualifiers_stay_in_the_title() {
    let album = parse_artist(r"Prince - Anos (Live) (Remix) (1980) [FLAC]");

    assert_eq!(album.get(ALBUM_NAME).unwrap(), &Some(String::from("Anos (Live) (Remix)")));
    assert_eq!(album.get(YEAR).unwrap(), &Some(String::from("1980")));
}

#[test]
fn extraction_is_idempotent() {
    let matching = r"Prince - Parade (1980) [FLAC]";
    let unmatched = r"nothing to see";

    assert_eq!(parse_artist(matching), parse_artist(matching));
    assert_eq!(parse_artist(unmatched), parse_artist(unmatched));
}
