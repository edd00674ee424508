//! Media in words.

use crate::text::{decimal, join, joined, lemma_texts_push, or_empty, push_decimal, texts};
use vstd::prelude::*;

verus! {

/// The whole minutes of a number of seconds, counted towards zero.
pub open spec fn minutes_of(seconds: int) -> int {
    if seconds >= 0 {
        seconds / 60
    } else {
        -((-seconds) / 60)
    }
}

/// The seconds that are left over the whole minutes; below zero for a
/// number of seconds below zero.
pub open spec fn seconds_of(seconds: int) -> int {
    if seconds >= 0 {
        seconds % 60
    } else {
        -((-seconds) % 60)
    }
}

/// A number in decimal, with a zero in front where it has one digit.
pub open spec fn two_digits(n: int) -> Seq<char> {
    if 0 <= n < 10 {
        seq!['0'] + decimal(n)
    } else {
        decimal(n)
    }
}

/// A duration as minutes and seconds with a colon between, the seconds in
/// two digits.
pub open spec fn duration_text(seconds: int) -> Seq<char> {
    decimal(minutes_of(seconds)) + seq![':'] + two_digits(seconds_of(seconds))
}

/// A duration as minutes and seconds.
pub fn format_duration_secs(seconds: i32) -> (out: String)
    ensures
        out@ == duration_text(seconds as int),
{
    let wide: i64 = seconds as i64;
    let (mins, secs): (i64, i64) = if wide >= 0 {
        (wide / 60, wide % 60)
    } else {
        (-((-wide) / 60), -((-wide) % 60))
    };
    let mut out = String::new();
    push_decimal(&mut out, mins);
    out.push(':');
    let ghost head = out@;
    if 0 <= secs && secs < 10 {
        out.push('0');
    }
    push_decimal(&mut out, secs);
    assert(out@ =~= duration_text(seconds as int));
    out
}

/// The parts that are not empty, in order.
pub open spec fn non_empty(parts: Seq<Seq<char>>) -> Seq<Seq<char>>
    decreases parts.len(),
{
    if parts.len() == 0 {
        Seq::empty()
    } else if parts.last().len() == 0 {
        non_empty(parts.drop_last())
    } else {
        non_empty(parts.drop_last()).push(parts.last())
    }
}

/// Joins the parts that are not empty, putting `sep` between each two.
pub fn join_non_empty(sep: &str, parts: &Vec<String>) -> (out: String)
    ensures
        out@ == joined(non_empty(texts(parts@)), sep@),
{
    let mut kept: Vec<String> = Vec::new();
    let mut i: usize = 0;
    assert(texts(kept@) =~= non_empty(texts(parts@).take(0)));
    while i < parts.len()
        invariant
            i <= parts.len(),
            texts(kept@) == non_empty(texts(parts@).take(i as int)),
        decreases parts.len() - i,
    {
        proof {
            let all = texts(parts@);
            assert(all.take(i + 1).drop_last() == all.take(i as int));
            assert(all.take(i + 1).last() == parts@[i as int]@);
        }
        if !parts[i].as_str().is_empty() {
            let part = parts[i].clone();
            proof {
                lemma_texts_push(kept@, part);
            }
            kept.push(part);
        }
        i = i + 1;
    }
    assert(texts(parts@).take(parts.len() as int) == texts(parts@));
    join(&kept, sep)
}

/// A place on the map, its coordinates written with five decimals.
#[derive(Clone, Debug, PartialEq, Eq)]
pub enum GeoPoint {
    Empty,
    Point { lat: String, long: String },
}

/// What a document says of itself.
#[derive(Clone, Debug, PartialEq, Eq)]
#[allow(inconsistent_fields)]
pub enum DocumentAttribute {
    Audio { voice: bool, duration: i32, title: Option<String>, performer: Option<String> },
    /// A video, its duration in whole seconds.
    Video { round_message: bool, nosound: bool, duration: i32 },
    Sticker { alt: String },
    Filename { file_name: String },
    /// Any other attribute; the description takes nothing from it.
    Other,
}

/// A document attached to a message.
#[derive(Clone, Debug, PartialEq, Eq)]
pub enum Document {
    Empty,
    Document { attributes: Vec<DocumentAttribute> },
}

/// The media of a message, as far as its description reads them.
#[derive(Clone, Debug, PartialEq, Eq)]
#[allow(inconsistent_fields)]
pub enum MessageMedia {
    Empty,
    Unsupported,
    Photo { spoiler: bool },
    Document { document: Option<Document> },
    Contact { first_name: String, last_name: String, phone_number: String },
    Geo { geo: GeoPoint },
    GeoLive { geo: GeoPoint },
    Venue { title: String },
    Poll { quiz: bool, question: String },
    Dice { emoticon: String, value: i32 },
    WebPage,
    Game { title: String },
    Invoice { title: String },
    Story,
    Giveaway { quantity: i32 },
    GiveawayResults,
    PaidMedia { stars_amount: i64 },
    ToDo,
    VideoStream,
}

/// A message as an update carries it.
#[derive(Clone, Debug, PartialEq, Eq)]
pub enum RawMessage {
    Message { media: Option<MessageMedia> },
    Empty,
    Service,
}

/// An update of the transport, as far as it may carry a message with media.
#[derive(Clone, Debug, PartialEq, Eq)]
pub enum Update {
    NewMessage(RawMessage),
    NewChannelMessage(RawMessage),
    EditMessage(RawMessage),
    EditChannelMessage(RawMessage),
    NewScheduledMessage(RawMessage),
    /// Any other update.
    Other,
}

/// The media of the message that an update carries, if it carries an
/// ordinary message with media.
pub open spec fn media_of(update: Update) -> Option<MessageMedia> {
    let message = match update {
        Update::NewMessage(m) => Some(m),
        Update::NewChannelMessage(m) => Some(m),
        Update::EditMessage(m) => Some(m),
        Update::EditChannelMessage(m) => Some(m),
        Update::NewScheduledMessage(m) => Some(m),
        Update::Other => None,
    };
    match message {
        Some(RawMessage::Message { media }) => media,
        _ => None,
    }
}

/// The media of the message that an update carries.
pub fn extract_media_from_update(update: &Update) -> (out: Option<&MessageMedia>)
    ensures
        match out {
            Some(media) => media_of(*update) == Some(*media),
            None => media_of(*update) is None,
        },
{
    let message = match update {
        Update::NewMessage(m) => m,
        Update::NewChannelMessage(m) => m,
        Update::EditMessage(m) => m,
        Update::EditChannelMessage(m) => m,
        Update::NewScheduledMessage(m) => m,
        Update::Other => {
            return None;
        },
    };
    match message {
        RawMessage::Message { media } => media.as_ref(),
        RawMessage::Empty => None,
        RawMessage::Service => None,
    }
}

/// What the attributes of a document say together. Of two attributes of
/// one kind the later one counts.
pub struct DocumentTraits {
    pub is_voice: bool,
    pub is_round: bool,
    pub is_sticker: bool,
    pub sticker_emoji: Option<String>,
    pub audio_duration: Option<i32>,
    pub video_duration: Option<i32>,
    pub audio_title: Option<String>,
    pub audio_performer: Option<String>,
    pub is_gif: bool,
    pub filename: Option<String>,
}

/// The traits of a document of which nothing is known.
pub open spec fn no_traits() -> DocumentTraits {
    DocumentTraits {
        is_voice: false,
        is_round: false,
        is_sticker: false,
        sticker_emoji: None,
        audio_duration: None,
        video_duration: None,
        audio_title: None,
        audio_performer: None,
        is_gif: false,
        filename: None,
    }
}

/// The traits after one more attribute.
pub open spec fn with_attribute(
    traits: DocumentTraits,
    attribute: DocumentAttribute,
) -> DocumentTraits {
    match attribute {
        DocumentAttribute::Audio { voice, duration, title, performer } => DocumentTraits {
            is_voice: voice,
            audio_duration: Some(duration),
            audio_title: title,
            audio_performer: performer,
            ..traits
        },
        DocumentAttribute::Video { round_message, nosound, duration } => DocumentTraits {
            is_round: round_message,
            is_gif: nosound,
            video_duration: Some(duration),
            ..traits
        },
        DocumentAttribute::Sticker { alt } => DocumentTraits {
            is_sticker: true,
            sticker_emoji: Some(alt),
            ..traits
        },
        DocumentAttribute::Filename { file_name } => DocumentTraits {
            filename: Some(file_name),
            ..traits
        },
        DocumentAttribute::Other => traits,
    }
}

/// The traits that a list of attributes gives a document.
pub open spec fn traits_of(attributes: Seq<DocumentAttribute>) -> DocumentTraits
    decreases attributes.len(),
{
    if attributes.len() == 0 {
        no_traits()
    } else {
        with_attribute(traits_of(attributes.drop_last()), attributes.last())
    }
}

/// The number, or zero where there is none.
pub open spec fn or_zero(n: Option<i32>) -> int {
    match n {
        Some(n) => n as int,
        None => 0,
    }
}

/// Who plays what: the performer and the title with a dash between, or the
/// one of the two that is known.
pub open spec fn audio_credits(performer: Option<String>, title: Option<String>) -> Seq<Seq<char>> {
    match performer {
        Some(p) => match title {
            Some(t) => seq![p@ + " \u{e2}\u{20ac}\u{201d} "@ + t@],
            None => seq![p@],
        },
        None => match title {
            Some(t) => seq![t@],
            None => Seq::empty(),
        },
    }
}

/// A document in words: a sticker before a voice message, before a round
/// video, before other audio, before other video, before a named file.
pub open spec fn traits_text(traits: DocumentTraits) -> Seq<char> {
    if traits.is_sticker {
        "[sticker "@ + or_empty(traits.sticker_emoji) + "]"@
    } else if traits.is_voice {
        "[voice, "@ + duration_text(or_zero(traits.audio_duration)) + "]"@
    } else if traits.is_round {
        "[video message, "@ + duration_text(or_zero(traits.video_duration)) + "]"@
    } else if traits.audio_duration is Some {
        "["@ + joined(
            seq!["audio"@] + audio_credits(traits.audio_performer, traits.audio_title) + seq![
                duration_text(or_zero(traits.audio_duration)),
            ],
            ", "@,
        ) + "]"@
    } else if traits.video_duration is Some {
        if traits.is_gif {
            "[GIF]"@
        } else {
            "[video, "@ + duration_text(or_zero(traits.video_duration)) + "]"@
        }
    } else if traits.filename is Some {
        "[file, "@ + or_empty(traits.filename) + "]"@
    } else {
        "[document]"@
    }
}

/// A document in words.
pub open spec fn document_text(document: Option<Document>) -> Seq<char> {
    match document {
        Some(Document::Document { attributes }) => traits_text(traits_of(attributes@)),
        _ => "[document]"@,
    }
}

fn clone_option(s: &Option<String>) -> (out: Option<String>)
    ensures
        out == *s,
{
    match s {
        Some(s) => Some(s.clone()),
        None => None,
    }
}

fn document_traits(attributes: &Vec<DocumentAttribute>) -> (traits: DocumentTraits)
    ensures
        traits == traits_of(attributes@),
{
    let mut traits = DocumentTraits {
        is_voice: false,
        is_round: false,
        is_sticker: false,
        sticker_emoji: None,
        audio_duration: None,
        video_duration: None,
        audio_title: None,
        audio_performer: None,
        is_gif: false,
        filename: None,
    };
    let mut i: usize = 0;
    assert(attributes@.take(0) =~= Seq::<DocumentAttribute>::empty());
    while i < attributes.len()
        invariant
            i <= attributes.len(),
            traits == traits_of(attributes@.take(i as int)),
        decreases attributes.len() - i,
    {
        proof {
            assert(attributes@.take(i + 1).drop_last() == attributes@.take(i as int));
            assert(attributes@.take(i + 1).last() == attributes@[i as int]);
        }
        match &attributes[i] {
            DocumentAttribute::Audio { voice, duration, title, performer } => {
                traits.is_voice = *voice;
                traits.audio_duration = Some(*duration);
                traits.audio_title = clone_option(title);
                traits.audio_performer = clone_option(performer);
            },
            DocumentAttribute::Video { round_message, nosound, duration } => {
                traits.is_round = *round_message;
                traits.is_gif = *nosound;
                traits.video_duration = Some(*duration);
            },
            DocumentAttribute::Sticker { alt } => {
                traits.is_sticker = true;
                traits.sticker_emoji = Some(alt.clone());
            },
            DocumentAttribute::Filename { file_name } => {
                traits.filename = Some(file_name.clone());
            },
            DocumentAttribute::Other => {},
        }
        i = i + 1;
    }
    assert(attributes@.take(attributes.len() as int) == attributes@);
    traits
}

fn bracketed(open: &str, inner: &str) -> (out: String)
    ensures
        out@ == open@ + inner@ + "]"@,
{
    let mut out = String::new();
    out.append(open);
    out.append(inner);
    out.append("]");
    assert(out@ =~= open@ + inner@ + "]"@);
    out
}

fn duration_of(seconds: Option<i32>) -> (out: String)
    ensures
        out@ == duration_text(or_zero(seconds)),
{
    match seconds {
        Some(seconds) => format_duration_secs(seconds),
        None => format_duration_secs(0),
    }
}

/// A document in words.
pub fn describe_document(document: &Option<Document>) -> (out: String)
    ensures
        out@ == document_text(*document),
{
    let attributes = match document {
        Some(Document::Document { attributes }) => attributes,
        _ => {
            return "[document]".to_owned();
        },
    };
    let traits = document_traits(attributes);
    if traits.is_sticker {
        let emoji = match &traits.sticker_emoji {
            Some(emoji) => emoji.clone(),
            None => String::new(),
        };
        return bracketed("[sticker ", emoji.as_str());
    }
    if traits.is_voice {
        let duration = duration_of(traits.audio_duration);
        return bracketed("[voice, ", duration.as_str());
    }
    if traits.is_round {
        let duration = duration_of(traits.video_duration);
        return bracketed("[video message, ", duration.as_str());
    }
    if traits.audio_duration.is_some() {
        let mut parts: Vec<String> = Vec::new();
        parts.push("audio".to_owned());
        assert(texts(parts@) =~= seq!["audio"@]);
        match &traits.audio_performer {
            Some(performer) => {
                let mut credit = performer.clone();
                if let Some(title) = &traits.audio_title {
                    credit.append(" \u{e2}\u{20ac}\u{201d} ");
                    credit.append(title.as_str());
                }
                proof {
                    lemma_texts_push(parts@, credit);
                }
                parts.push(credit);
            },
            None => {
                if let Some(title) = &traits.audio_title {
                    let credit = title.clone();
                    proof {
                        lemma_texts_push(parts@, credit);
                    }
                    parts.push(credit);
                }
            },
        }
        assert(texts(parts@) =~= seq!["audio"@] + audio_credits(
            traits.audio_performer,
            traits.audio_title,
        ));
        let duration = duration_of(traits.audio_duration);
        proof {
            lemma_texts_push(parts@, duration);
            assert(texts(parts@).push(duration@) =~= seq!["audio"@] + audio_credits(
                traits.audio_performer,
                traits.audio_title,
            ) + seq![duration@]);
        }
        parts.push(duration);
        let inner = join(&parts, ", ");
        return bracketed("[", inner.as_str());
    }
    if traits.video_duration.is_some() {
        if traits.is_gif {
            return "[GIF]".to_owned();
        }
        let duration = duration_of(traits.video_duration);
        return bracketed("[video, ", duration.as_str());
    }
    match &traits.filename {
        Some(name) => bracketed("[file, ", name.as_str()),
        None => "[document]".to_owned(),
    }
}

/// A place in words: `what` alone where the place is not known, else
/// `what` and the coordinates.
pub open spec fn place_text(what: Seq<char>, geo: GeoPoint) -> Seq<char> {
    match geo {
        GeoPoint::Point { lat, long } => "["@ + what + ", "@ + lat@ + ", "@ + long@ + "]"@,
        GeoPoint::Empty => "["@ + what + "]"@,
    }
}

/// A contact in words: the name, where there is one, and the number.
pub open spec fn contact_text(first: Seq<char>, last: Seq<char>, phone: Seq<char>) -> Seq<char> {
    let name = joined(non_empty(seq![first, last]), " "@);
    if name.len() == 0 {
        "[contact, "@ + phone + "]"@
    } else {
        "[contact, "@ + name + ", "@ + phone + "]"@
    }
}

/// Media in words, in square brackets.
pub open spec fn media_text(media: MessageMedia) -> Seq<char> {
    match media {
        MessageMedia::Empty => "[empty media]"@,
        MessageMedia::Unsupported => "[unsupported media]"@,
        MessageMedia::Photo { spoiler } => if spoiler {
            "[photo, spoiler]"@
        } else {
            "[photo]"@
        },
        MessageMedia::Document { document } => document_text(document),
        MessageMedia::Contact { first_name, last_name, phone_number } => contact_text(
            first_name@,
            last_name@,
            phone_number@,
        ),
        MessageMedia::Geo { geo } => place_text("location"@, geo),
        MessageMedia::GeoLive { geo } => place_text("live location"@, geo),
        MessageMedia::Venue { title } => "[venue, "@ + title@ + "]"@,
        MessageMedia::Poll { quiz, question } => (if quiz {
            "[quiz: "@
        } else {
            "[poll: "@
        }) + question@ + "]"@,
        MessageMedia::Dice { emoticon, value } => "["@ + emoticon@ + " = "@ + decimal(value as int)
            + "]"@,
        MessageMedia::WebPage => "[web page]"@,
        MessageMedia::Game { title } => "[game, "@ + title@ + "]"@,
        MessageMedia::Invoice { title } => "[invoice, "@ + title@ + "]"@,
        MessageMedia::Story => "[story]"@,
        MessageMedia::Giveaway { quantity } => "[giveaway, "@ + decimal(quantity as int)
            + " winners]"@,
        MessageMedia::GiveawayResults => "[giveaway results]"@,
        MessageMedia::PaidMedia { stars_amount } => "[paid media, "@ + decimal(stars_amount as int)
            + " stars]"@,
        MessageMedia::ToDo => "[todo list]"@,
        MessageMedia::VideoStream => "[video stream]"@,
    }
}

fn place(what: &str, geo: &GeoPoint) -> (out: String)
    ensures
        out@ == place_text(what@, *geo),
{
    let mut out = String::new();
    out.append("[");
    out.append(what);
    match geo {
        GeoPoint::Point { lat, long } => {
            out.append(", ");
            out.append(lat.as_str());
            out.append(", ");
            out.append(long.as_str());
        },
        GeoPoint::Empty => {},
    }
    out.append("]");
    assert(out@ =~= place_text(what@, *geo));
    out
}

/// Media in words.
pub fn describe_media(media: &MessageMedia) -> (out: String)
    ensures
        out@ == media_text(*media),
{
    match media {
        MessageMedia::Empty => "[empty media]".to_owned(),
        MessageMedia::Unsupported => "[unsupported media]".to_owned(),
        MessageMedia::Photo { spoiler } => {
            if *spoiler {
                "[photo, spoiler]".to_owned()
            } else {
                "[photo]".to_owned()
            }
        },
        MessageMedia::Document { document } => describe_document(document),
        MessageMedia::Contact { first_name, last_name, phone_number } => {
            let mut names: Vec<String> = Vec::new();
            names.push(first_name.clone());
            names.push(last_name.clone());
            assert(texts(names@) =~= seq![first_name@, last_name@]);
            let name = join_non_empty(" ", &names);
            let mut out = String::new();
            out.append("[contact, ");
            if !name.as_str().is_empty() {
                out.append(name.as_str());
                out.append(", ");
            }
            out.append(phone_number.as_str());
            out.append("]");
            assert(out@ =~= contact_text(first_name@, last_name@, phone_number@));
            out
        },
        MessageMedia::Geo { geo } => place("location", geo),
        MessageMedia::GeoLive { geo } => place("live location", geo),
        MessageMedia::Venue { title } => bracketed("[venue, ", title.as_str()),
        MessageMedia::Poll { quiz, question } => {
            if *quiz {
                bracketed("[quiz: ", question.as_str())
            } else {
                bracketed("[poll: ", question.as_str())
            }
        },
        MessageMedia::Dice { emoticon, value } => {
            let mut out = String::new();
            out.append("[");
            out.append(emoticon.as_str());
            out.append(" = ");
            push_decimal(&mut out, *value as i64);
            out.append("]");
            assert(out@ =~= media_text(*media));
            out
        },
        MessageMedia::WebPage => "[web page]".to_owned(),
        MessageMedia::Game { title } => bracketed("[game, ", title.as_str()),
        MessageMedia::Invoice { title } => bracketed("[invoice, ", title.as_str()),
        MessageMedia::Story => "[story]".to_owned(),
        MessageMedia::Giveaway { quantity } => {
            let mut out = String::new();
            out.append("[giveaway, ");
            push_decimal(&mut out, *quantity as i64);
            out.append(" winners]");
            assert(out@ =~= media_text(*media));
            out
        },
        MessageMedia::GiveawayResults => "[giveaway results]".to_owned(),
        MessageMedia::PaidMedia { stars_amount } => {
            let mut out = String::new();
            out.append("[paid media, ");
            push_decimal(&mut out, *stars_amount);
            out.append(" stars]");
            assert(out@ =~= media_text(*media));
            out
        },
        MessageMedia::ToDo => "[todo list]".to_owned(),
        MessageMedia::VideoStream => "[video stream]".to_owned(),
    }
}

/// The media of the message that `update` carries, in words; none where it
/// carries no media.
pub fn describe(update: &Update) -> (out: Option<String>)
    ensures
        match out {
            Some(words) => media_of(*update) matches Some(media) && words@ == media_text(media),
            None => media_of(*update) is None,
        },
{
    match extract_media_from_update(update) {
        Some(media) => Some(describe_media(media)),
        None => None,
    }
}

} // verus!
