use chatlog::session::password_prompt;
use chatlog::utils::media_description::{
    describe, describe_document, describe_media, extract_media_from_update, Document,
    DocumentAttribute, GeoPoint, MessageMedia, RawMessage, Update,
};
use chatlog::utils::service_action::MessageAction;

fn s(v: &str) -> String {
    v.to_string()
}

fn words(action: &MessageAction) -> String {
    chatlog::utils::service_action::format(action)
}

fn doc(attributes: Vec<DocumentAttribute>) -> Option<Document> {
    Some(Document::Document { attributes })
}

fn audio(voice: bool, duration: i32, title: Option<&str>, performer: Option<&str>) -> DocumentAttribute {
    DocumentAttribute::Audio { voice, duration, title: title.map(s), performer: performer.map(s) }
}

#[test]
fn plain_media_in_words() {
    assert_eq!(describe_media(&MessageMedia::Empty), "[empty media]");
    assert_eq!(describe_media(&MessageMedia::Unsupported), "[unsupported media]");
    assert_eq!(describe_media(&MessageMedia::Photo { spoiler: false }), "[photo]");
    assert_eq!(describe_media(&MessageMedia::Photo { spoiler: true }), "[photo, spoiler]");
    assert_eq!(describe_media(&MessageMedia::WebPage), "[web page]");
    assert_eq!(describe_media(&MessageMedia::Story), "[story]");
    assert_eq!(describe_media(&MessageMedia::GiveawayResults), "[giveaway results]");
    assert_eq!(describe_media(&MessageMedia::ToDo), "[todo list]");
    assert_eq!(describe_media(&MessageMedia::VideoStream), "[video stream]");
}

#[test]
fn media_with_fields_in_words() {
    assert_eq!(describe_media(&MessageMedia::Venue { title: s("Cafe") }), "[venue, Cafe]");
    assert_eq!(describe_media(&MessageMedia::Poll { quiz: false, question: s("Why?") }), "[poll: Why?]");
    assert_eq!(describe_media(&MessageMedia::Poll { quiz: true, question: s("Why?") }), "[quiz: Why?]");
    assert_eq!(describe_media(&MessageMedia::Dice { emoticon: s("\u{1f3b2}"), value: 6 }), "[\u{1f3b2} = 6]");
    assert_eq!(describe_media(&MessageMedia::Game { title: s("Chess") }), "[game, Chess]");
    assert_eq!(describe_media(&MessageMedia::Invoice { title: s("Bill") }), "[invoice, Bill]");
    assert_eq!(describe_media(&MessageMedia::Giveaway { quantity: 3 }), "[giveaway, 3 winners]");
    assert_eq!(describe_media(&MessageMedia::PaidMedia { stars_amount: 50 }), "[paid media, 50 stars]");
}

#[test]
fn contact_in_words() {
    let contact = |first: &str, last: &str| MessageMedia::Contact { first_name: s(first), last_name: s(last), phone_number: s("+31") };
    assert_eq!(describe_media(&contact("Ann", "Lee")), "[contact, Ann Lee, +31]");
    assert_eq!(describe_media(&contact("Ann", "")), "[contact, Ann, +31]");
    assert_eq!(describe_media(&contact("", "Lee")), "[contact, Lee, +31]");
    assert_eq!(describe_media(&contact("", "")), "[contact, +31]");
}

#[test]
fn places_in_words() {
    let point = GeoPoint::Point { lat: s("52.37000"), long: s("4.90000") };
    assert_eq!(describe_media(&MessageMedia::Geo { geo: point.clone() }), "[location, 52.37000, 4.90000]");
    assert_eq!(describe_media(&MessageMedia::Geo { geo: GeoPoint::Empty }), "[location]");
    assert_eq!(describe_media(&MessageMedia::GeoLive { geo: point }), "[live location, 52.37000, 4.90000]");
    assert_eq!(describe_media(&MessageMedia::GeoLive { geo: GeoPoint::Empty }), "[live location]");
}

#[test]
fn documents_in_words() {
    assert_eq!(describe_document(&None), "[document]");
    assert_eq!(describe_document(&Some(Document::Empty)), "[document]");
    assert_eq!(describe_document(&doc(vec![])), "[document]");
    assert_eq!(describe_document(&doc(vec![DocumentAttribute::Other])), "[document]");
    assert_eq!(describe_document(&doc(vec![DocumentAttribute::Filename { file_name: s("a.pdf") }])), "[file, a.pdf]");
    assert_eq!(describe_document(&doc(vec![DocumentAttribute::Sticker { alt: s(":)") }, audio(true, 5, None, None)])), "[sticker :)]");
    assert_eq!(describe_document(&doc(vec![audio(true, 65, None, None)])), "[voice, 1:05]");
    assert_eq!(
        describe_document(&doc(vec![DocumentAttribute::Video { round_message: true, nosound: false, duration: 9 }])),
        "[video message, 0:09]"
    );
    assert_eq!(
        describe_document(&doc(vec![DocumentAttribute::Video { round_message: false, nosound: true, duration: 9 }])),
        "[GIF]"
    );
    assert_eq!(
        describe_document(&doc(vec![
            DocumentAttribute::Video { round_message: false, nosound: false, duration: 125 },
            DocumentAttribute::Filename { file_name: s("v.mp4") },
        ])),
        "[video, 2:05]"
    );
    assert_eq!(describe_media(&MessageMedia::Document { document: doc(vec![audio(true, 65, None, None)]) }), "[voice, 1:05]");
}

#[test]
fn audio_in_words() {
    assert_eq!(describe_document(&doc(vec![audio(false, 200, None, None)])), "[audio, 3:20]");
    assert_eq!(describe_document(&doc(vec![audio(false, 200, Some("Song"), None)])), "[audio, Song, 3:20]");
    assert_eq!(describe_document(&doc(vec![audio(false, 200, None, Some("Band"))])), "[audio, Band, 3:20]");
    assert_eq!(
        describe_document(&doc(vec![audio(false, 200, Some("Song"), Some("Band"))])),
        "[audio, Band \u{e2}\u{20ac}\u{201d} Song, 3:20]"
    );
}

#[test]
fn later_attribute_of_a_kind_counts() {
    assert_eq!(
        describe_document(&doc(vec![audio(true, 10, Some("a"), Some("b")), audio(false, 70, None, None)])),
        "[audio, 1:10]"
    );
}

#[test]
fn media_are_taken_from_updates_with_ordinary_messages() {
    let with = RawMessage::Message { media: Some(MessageMedia::Story) };
    let without = RawMessage::Message { media: None };
    assert_eq!(extract_media_from_update(&Update::NewMessage(with.clone())), Some(&MessageMedia::Story));
    assert_eq!(describe(&Update::NewMessage(with.clone())), Some(s("[story]")));
    assert_eq!(describe(&Update::NewChannelMessage(with.clone())), Some(s("[story]")));
    assert_eq!(describe(&Update::EditMessage(with.clone())), Some(s("[story]")));
    assert_eq!(describe(&Update::EditChannelMessage(with.clone())), Some(s("[story]")));
    assert_eq!(describe(&Update::NewScheduledMessage(with)), Some(s("[story]")));
    assert_eq!(describe(&Update::NewMessage(without)), None);
    assert_eq!(describe(&Update::NewMessage(RawMessage::Empty)), None);
    assert_eq!(describe(&Update::NewMessage(RawMessage::Service)), None);
    assert_eq!(describe(&Update::Other), None);
}

#[test]
fn service_messages_without_fields_in_words() {
    assert_eq!(words(&MessageAction::Empty), "[service message]");
    assert_eq!(words(&MessageAction::ChatEditPhoto), "[chat photo updated]");
    assert_eq!(words(&MessageAction::ChatDeletePhoto), "[chat photo removed]");
    assert_eq!(words(&MessageAction::ChatJoinedByRequest), "[joined by request]");
    assert_eq!(words(&MessageAction::PinMessage), "[message pinned]");
    assert_eq!(words(&MessageAction::HistoryClear), "[history cleared]");
    assert_eq!(words(&MessageAction::ScreenshotTaken), "[screenshot taken]");
    assert_eq!(words(&MessageAction::SecureValuesSentMe), "[passport data received]");
    assert_eq!(words(&MessageAction::SecureValuesSent), "[passport data sent]");
    assert_eq!(words(&MessageAction::ContactSignUp), "[joined Telegram]");
    assert_eq!(words(&MessageAction::SuggestProfilePhoto), "[profile photo suggested]");
    assert_eq!(words(&MessageAction::SuggestedPostSuccess), "[suggested post published]");
}

#[test]
fn service_messages_about_chats_in_words() {
    assert_eq!(words(&MessageAction::ChatCreate { title: s("T"), users: vec![1, 2] }), "[chat created: \"T\", members: 1, 2]");
    assert_eq!(words(&MessageAction::ChatEditTitle { title: s("T") }), "[title changed to \"T\"]");
    assert_eq!(words(&MessageAction::ChatAddUser { users: vec![5] }), "[users added: 5]");
    assert_eq!(words(&MessageAction::ChatDeleteUser { user_id: 5 }), "[user removed: 5]");
    assert_eq!(words(&MessageAction::ChatJoinedByLink { inviter_id: 9 }), "[joined via invite link from 9]");
    assert_eq!(words(&MessageAction::ChannelCreate { title: s("C") }), "[channel created: \"C\"]");
    assert_eq!(words(&MessageAction::ChatMigrateTo { channel_id: 77 }), "[migrated to supergroup 77]");
    assert_eq!(words(&MessageAction::ChannelMigrateFrom { title: s("Old"), chat_id: 3 }), "[supergroup created from chat \"Old\", chat 3]");
    assert_eq!(words(&MessageAction::CustomAction { message: s("hello") }), "[hello]");
    assert_eq!(words(&MessageAction::SetChatTheme { theme: s("Theme(x)") }), "[chat theme changed: Theme(x)]");
    assert_eq!(words(&MessageAction::SetChatWallPaper { for_both: true }), "[wallpaper changed, for both]");
    assert_eq!(words(&MessageAction::SetChatWallPaper { for_both: false }), "[wallpaper changed]");
    assert_eq!(words(&MessageAction::NewCreatorPending { new_creator_id: 4 }), "[ownership transfer to 4 pending]");
    assert_eq!(words(&MessageAction::ChangeCreator { new_creator_id: 4 }), "[ownership transferred to 4]");
    assert_eq!(words(&MessageAction::SuggestBirthday { birthday: s("Birthday(1)") }), "[birthday suggested: Birthday(1)]");
}

#[test]
fn service_messages_about_calls_in_words() {
    assert_eq!(words(&MessageAction::PhoneCall { video: false, duration: Some(30) }), "[call, 30 sec]");
    assert_eq!(words(&MessageAction::PhoneCall { video: true, duration: None }), "[video call, no answer]");
    assert_eq!(words(&MessageAction::GroupCall { duration: Some(60) }), "[group call, 60 sec]");
    assert_eq!(words(&MessageAction::GroupCall { duration: None }), "[group call started]");
    assert_eq!(words(&MessageAction::InviteToGroupCall { users: vec![1, 2, 3] }), "[invited to group call: 1, 2, 3]");
    assert_eq!(words(&MessageAction::GroupCallScheduled { schedule_date: 1700000000 }), "[group call scheduled at 1700000000]");
    assert_eq!(
        words(&MessageAction::ConferenceCall { video: true, missed: true, active: true, duration: Some(5) }),
        "[video conference, missed, 5 sec]"
    );
    assert_eq!(
        words(&MessageAction::ConferenceCall { video: false, missed: false, active: true, duration: None }),
        "[conference call, active]"
    );
    assert_eq!(
        words(&MessageAction::ConferenceCall { video: false, missed: false, active: false, duration: None }),
        "[conference call]"
    );
}

#[test]
fn service_messages_about_money_in_words() {
    assert_eq!(words(&MessageAction::GameScore { score: 10, game_id: 2 }), "[game score: 10 in game 2]");
    assert_eq!(words(&MessageAction::PaymentSentMe { total_amount: 100, currency: s("EUR") }), "[payment received: 100 EUR]");
    assert_eq!(words(&MessageAction::PaymentSent { total_amount: 100, currency: s("EUR") }), "[payment sent: 100 EUR]");
    assert_eq!(words(&MessageAction::PaymentRefunded { total_amount: 100, currency: s("EUR") }), "[payment refunded: 100 EUR]");
    assert_eq!(words(&MessageAction::GiftPremium { days: 30, amount: 5, currency: s("USD") }), "[gift Premium, 30 days, 5 USD]");
    assert_eq!(words(&MessageAction::GiftCode { days: 30, slug: s("abc") }), "[gift code, 30 days, slug: abc]");
    assert_eq!(words(&MessageAction::GiveawayLaunch { stars: Some(10) }), "[giveaway launched, 10 stars]");
    assert_eq!(words(&MessageAction::GiveawayLaunch { stars: None }), "[giveaway launched]");
    assert_eq!(words(&MessageAction::GiveawayResults { winners_count: 2, unclaimed_count: 1 }), "[giveaway results: 2 winners, 1 unclaimed]");
    assert_eq!(words(&MessageAction::BoostApply { boosts: 3 }), "[boost x3]");
    assert_eq!(words(&MessageAction::GiftStars { stars: 7, amount: 1, currency: s("USD") }), "[gift 7 stars, 1 USD]");
    assert_eq!(words(&MessageAction::PrizeStars { stars: 7, giveaway_msg_id: 12 }), "[prize 7 stars, giveaway msg 12]");
    assert_eq!(words(&MessageAction::PaidMessagesRefunded { count: 2, stars: 8 }), "[paid messages refunded: 2 msgs, 8 stars]");
    assert_eq!(words(&MessageAction::PaidMessagesPrice { stars: 8 }), "[paid message price: 8 stars]");
    assert_eq!(
        words(&MessageAction::GiftTon { crypto_amount: 1, crypto_currency: s("TON"), amount: 2, currency: s("USD") }),
        "[gift TON: 1 TON, 2 USD]"
    );
}

#[test]
fn star_gifts_in_words() {
    assert_eq!(words(&MessageAction::StarGift { converted: false, upgraded: false, refunded: false }), "[star gift]");
    assert_eq!(words(&MessageAction::StarGift { converted: true, upgraded: true, refunded: true }), "[star gift, converted, upgraded, refunded]");
    assert_eq!(words(&MessageAction::StarGift { converted: false, upgraded: true, refunded: false }), "[star gift, upgraded]");
    assert_eq!(
        words(&MessageAction::StarGiftUnique { upgrade: true, transferred: true, transfer_stars: Some(25) }),
        "[unique star gift, upgrade, transferred, transfer cost: 25]"
    );
    assert_eq!(words(&MessageAction::StarGiftUnique { upgrade: false, transferred: false, transfer_stars: None }), "[unique star gift]");
    assert_eq!(words(&MessageAction::StarGiftPurchaseOffer { accepted: true, declined: true }), "[star gift purchase offer, accepted]");
    assert_eq!(words(&MessageAction::StarGiftPurchaseOffer { accepted: false, declined: true }), "[star gift purchase offer, declined]");
    assert_eq!(words(&MessageAction::StarGiftPurchaseOffer { accepted: false, declined: false }), "[star gift purchase offer]");
    assert_eq!(words(&MessageAction::StarGiftPurchaseOfferDeclined { expired: true }), "[star gift offer declined (expired)]");
    assert_eq!(words(&MessageAction::StarGiftPurchaseOfferDeclined { expired: false }), "[star gift offer declined]");
}

#[test]
fn other_service_messages_in_words() {
    assert_eq!(words(&MessageAction::BotAllowed { domain: Some(s("example.org")) }), "[bot allowed, domain: example.org]");
    assert_eq!(words(&MessageAction::BotAllowed { domain: None }), "[bot allowed]");
    assert_eq!(words(&MessageAction::GeoProximityReached { distance: 100 }), "[proximity alert: 100 m]");
    assert_eq!(words(&MessageAction::SetMessagesTtl { period: 0 }), "[auto-delete disabled]");
    assert_eq!(words(&MessageAction::SetMessagesTtl { period: 86400 }), "[auto-delete: 86400 sec]");
    assert_eq!(words(&MessageAction::WebViewDataSentMe { text: s("d") }), "[webview data received: d]");
    assert_eq!(words(&MessageAction::WebViewDataSent { text: s("d") }), "[webview data sent: d]");
    assert_eq!(words(&MessageAction::RequestedPeer { button_id: 1 }), "[peer shared, button 1]");
    assert_eq!(words(&MessageAction::RequestedPeerSentMe { button_id: 1 }), "[peer shared to me, button 1]");
    assert_eq!(words(&MessageAction::TodoCompletions { completed: 2, incompleted: 1 }), "[tasks: 2 completed, 1 uncompleted]");
    assert_eq!(words(&MessageAction::TodoAppendTasks { tasks: 4 }), "[4 tasks added]");
    assert_eq!(words(&MessageAction::SuggestedPostApproval { rejected: false, reject_comment: Some(s("no")) }), "[suggested post approved]");
    assert_eq!(words(&MessageAction::SuggestedPostApproval { rejected: true, reject_comment: Some(s("no")) }), "[suggested post rejected: no]");
    assert_eq!(words(&MessageAction::SuggestedPostApproval { rejected: true, reject_comment: None }), "[suggested post rejected]");
    assert_eq!(words(&MessageAction::SuggestedPostRefund { payer_initiated: true }), "[suggested post refund (payer initiated)]");
    assert_eq!(words(&MessageAction::SuggestedPostRefund { payer_initiated: false }), "[suggested post refund]");
}

#[test]
fn topics_in_words() {
    assert_eq!(words(&MessageAction::TopicCreate { title: s("News") }), "[topic created: \"News\"]");
    assert_eq!(words(&MessageAction::TopicEdit { title: None, closed: None, hidden: None }), "[topic edited]");
    assert_eq!(
        words(&MessageAction::TopicEdit { title: Some(s("New")), closed: Some(true), hidden: Some(false) }),
        "[topic edited: title: \"New\", closed, unhidden]"
    );
    assert_eq!(words(&MessageAction::TopicEdit { title: None, closed: Some(false), hidden: None }), "[topic edited: reopened]");
    assert_eq!(words(&MessageAction::TopicEdit { title: None, closed: None, hidden: Some(true) }), "[topic edited: hidden]");
}

#[test]
fn password_prompt_names_the_hint() {
    assert_eq!(password_prompt(Some("pet")), "Enter the password (hint pet)");
    assert_eq!(password_prompt(None), "Enter the password");
}
