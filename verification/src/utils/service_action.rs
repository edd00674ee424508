//! Service messages in words.

use crate::text::{
    decimal, decimal_string, join, joined, lemma_texts_push, push_decimal, push_digits, texts,
};
use vstd::prelude::*;

verus! {

/// What a service message reports, as far as its description reads it.
/// Numbers are held as the transport gives them, lists of tasks by their
/// length, and values without a notation of their own in the transport's
/// debug notation.
#[derive(Clone, Debug, PartialEq, Eq)]
#[allow(inconsistent_fields)]
pub enum MessageAction {
    Empty,
    ChatCreate { title: String, users: Vec<i64> },
    ChatEditTitle { title: String },
    ChatEditPhoto,
    ChatDeletePhoto,
    ChatAddUser { users: Vec<i64> },
    ChatDeleteUser { user_id: i64 },
    ChatJoinedByLink { inviter_id: i64 },
    ChatJoinedByRequest,
    ChannelCreate { title: String },
    ChatMigrateTo { channel_id: i64 },
    ChannelMigrateFrom { title: String, chat_id: i64 },
    PinMessage,
    HistoryClear,
    GameScore { score: i64, game_id: i64 },
    PaymentSentMe { total_amount: i64, currency: String },
    PaymentSent { total_amount: i64, currency: String },
    PhoneCall { video: bool, duration: Option<i64> },
    ScreenshotTaken,
    CustomAction { message: String },
    BotAllowed { domain: Option<String> },
    SecureValuesSentMe,
    SecureValuesSent,
    ContactSignUp,
    GeoProximityReached { distance: i64 },
    GroupCall { duration: Option<i64> },
    InviteToGroupCall { users: Vec<i64> },
    SetMessagesTtl { period: i64 },
    GroupCallScheduled { schedule_date: i64 },
    SetChatTheme { theme: String },
    WebViewDataSentMe { text: String },
    WebViewDataSent { text: String },
    GiftPremium { days: i64, amount: i64, currency: String },
    TopicCreate { title: String },
    TopicEdit { title: Option<String>, closed: Option<bool>, hidden: Option<bool> },
    SuggestProfilePhoto,
    RequestedPeer { button_id: i64 },
    SetChatWallPaper { for_both: bool },
    GiftCode { days: i64, slug: String },
    GiveawayLaunch { stars: Option<i64> },
    GiveawayResults { winners_count: i64, unclaimed_count: i64 },
    BoostApply { boosts: i64 },
    RequestedPeerSentMe { button_id: i64 },
    PaymentRefunded { total_amount: i64, currency: String },
    GiftStars { stars: i64, amount: i64, currency: String },
    PrizeStars { stars: i64, giveaway_msg_id: i64 },
    StarGift { converted: bool, upgraded: bool, refunded: bool },
    StarGiftUnique { upgrade: bool, transferred: bool, transfer_stars: Option<i64> },
    PaidMessagesRefunded { count: i64, stars: i64 },
    PaidMessagesPrice { stars: i64 },
    ConferenceCall { video: bool, missed: bool, active: bool, duration: Option<i64> },
    TodoCompletions { completed: usize, incompleted: usize },
    TodoAppendTasks { tasks: usize },
    SuggestedPostApproval { rejected: bool, reject_comment: Option<String> },
    SuggestedPostSuccess,
    SuggestedPostRefund { payer_initiated: bool },
    GiftTon { crypto_amount: i64, crypto_currency: String, amount: i64, currency: String },
    SuggestBirthday { birthday: String },
    StarGiftPurchaseOffer { accepted: bool, declined: bool },
    StarGiftPurchaseOfferDeclined { expired: bool },
    NewCreatorPending { new_creator_id: i64 },
    ChangeCreator { new_creator_id: i64 },
}

/// The ids in decimal, one for each of `ids`.
pub open spec fn decimals(ids: Seq<i64>) -> Seq<Seq<char>> {
    ids.map_values(|id: i64| decimal(id as int))
}

/// The ids in decimal, with a comma and a space between each two.
pub open spec fn ids_text(ids: Seq<i64>) -> Seq<char> {
    joined(decimals(ids), ", "@)
}

/// The ids in decimal, with a comma and a space between each two.
pub fn format_ids(ids: &Vec<i64>) -> (out: String)
    ensures
        out@ == ids_text(ids@),
{
    let mut parts: Vec<String> = Vec::new();
    let mut i: usize = 0;
    assert(texts(parts@) =~= decimals(ids@).take(0));
    while i < ids.len()
        invariant
            i <= ids.len(),
            texts(parts@) == decimals(ids@).take(i as int),
        decreases ids.len() - i,
    {
        let part = decimal_string(ids[i]);
        proof {
            lemma_texts_push(parts@, part);
            assert(decimals(ids@).take(i + 1) =~= decimals(ids@).take(i as int).push(part@));
        }
        parts.push(part);
        i = i + 1;
    }
    assert(decimals(ids@).take(ids.len() as int) == decimals(ids@));
    join(&parts, ", ")
}

/// What changed about a forum topic, one part for each change: the new
/// title, whether it was closed or reopened, whether it was hidden or
/// unhidden.
pub open spec fn topic_changes(
    title: Option<String>,
    closed: Option<bool>,
    hidden: Option<bool>,
) -> Seq<Seq<char>> {
    (match title {
        Some(t) => seq!["title: \""@ + t@ + "\""@],
        None => Seq::empty(),
    }) + (match closed {
        Some(c) => seq![if c { "closed"@ } else { "reopened"@ }],
        None => Seq::empty(),
    }) + (match hidden {
        Some(h) => seq![if h { "hidden"@ } else { "unhidden"@ }],
        None => Seq::empty(),
    })
}

/// A service message in words, in square brackets.
pub open spec fn action_text(action: MessageAction) -> Seq<char> {
    match action {
        MessageAction::Empty => "[service message]"@,
        MessageAction::ChatCreate { title, users } => {
            "[chat created: \""@ + title@ + "\", members: "@ + ids_text(users@) + "]"@
        },
        MessageAction::ChatEditTitle { title } => {
            "[title changed to \""@ + title@ + "\"]"@
        },
        MessageAction::ChatEditPhoto => "[chat photo updated]"@,
        MessageAction::ChatDeletePhoto => "[chat photo removed]"@,
        MessageAction::ChatAddUser { users } => {
            "[users added: "@ + ids_text(users@) + "]"@
        },
        MessageAction::ChatDeleteUser { user_id } => {
            "[user removed: "@ + decimal(user_id as int) + "]"@
        },
        MessageAction::ChatJoinedByLink { inviter_id } => {
            "[joined via invite link from "@ + decimal(inviter_id as int) + "]"@
        },
        MessageAction::ChatJoinedByRequest => "[joined by request]"@,
        MessageAction::ChannelCreate { title } => {
            "[channel created: \""@ + title@ + "\"]"@
        },
        MessageAction::ChatMigrateTo { channel_id } => {
            "[migrated to supergroup "@ + decimal(channel_id as int) + "]"@
        },
        MessageAction::ChannelMigrateFrom { title, chat_id } => {
            "[supergroup created from chat \""@ + title@ + "\", chat "@
                + decimal(chat_id as int) + "]"@
        },
        MessageAction::PinMessage => "[message pinned]"@,
        MessageAction::HistoryClear => "[history cleared]"@,
        MessageAction::GameScore { score, game_id } => {
            "[game score: "@ + decimal(score as int) + " in game "@ + decimal(game_id as int)
                + "]"@
        },
        MessageAction::PaymentSentMe { total_amount, currency } => {
            "[payment received: "@ + decimal(total_amount as int) + " "@ + currency@ + "]"@
        },
        MessageAction::PaymentSent { total_amount, currency } => {
            "[payment sent: "@ + decimal(total_amount as int) + " "@ + currency@ + "]"@
        },
        MessageAction::PhoneCall { video, duration } => {
            "["@ + (if video {
                "video call"@
            } else {
                "call"@
            }) + (match duration {
                Some(v) => ", "@ + decimal(v as int) + " sec]"@,
                None => ", no answer]"@,
            })
        },
        MessageAction::ScreenshotTaken => "[screenshot taken]"@,
        MessageAction::CustomAction { message } => {
            "["@ + message@ + "]"@
        },
        MessageAction::BotAllowed { domain } => {
            (match domain {
                Some(v) => "[bot allowed, domain: "@ + v@ + "]"@,
                None => "[bot allowed]"@,
            })
        },
        MessageAction::SecureValuesSentMe => "[passport data received]"@,
        MessageAction::SecureValuesSent => "[passport data sent]"@,
        MessageAction::ContactSignUp => "[joined Telegram]"@,
        MessageAction::GeoProximityReached { distance } => {
            "[proximity alert: "@ + decimal(distance as int) + " m]"@
        },
        MessageAction::GroupCall { duration } => {
            (match duration {
                Some(v) => "[group call, "@ + decimal(v as int) + " sec]"@,
                None => "[group call started]"@,
            })
        },
        MessageAction::InviteToGroupCall { users } => {
            "[invited to group call: "@ + ids_text(users@) + "]"@
        },
        MessageAction::SetMessagesTtl { period } => {
            if period == 0 {
                "[auto-delete disabled]"@
            } else {
                "[auto-delete: "@ + decimal(period as int) + " sec]"@
            }
        },
        MessageAction::GroupCallScheduled { schedule_date } => {
            "[group call scheduled at "@ + decimal(schedule_date as int) + "]"@
        },
        MessageAction::SetChatTheme { theme } => {
            "[chat theme changed: "@ + theme@ + "]"@
        },
        MessageAction::WebViewDataSentMe { text } => {
            "[webview data received: "@ + text@ + "]"@
        },
        MessageAction::WebViewDataSent { text } => {
            "[webview data sent: "@ + text@ + "]"@
        },
        MessageAction::GiftPremium { days, amount, currency } => {
            "[gift Premium, "@ + decimal(days as int) + " days, "@ + decimal(amount as int)
                + " "@ + currency@ + "]"@
        },
        MessageAction::TopicCreate { title } => {
            "[topic created: \""@ + title@ + "\"]"@
        },
        MessageAction::TopicEdit { title, closed, hidden } => {
            if topic_changes(title, closed, hidden).len() == 0 {
                "[topic edited]"@
            } else {
                "[topic edited: "@ + joined(topic_changes(title, closed, hidden), ", "@) + "]"@
            }
        },
        MessageAction::SuggestProfilePhoto => "[profile photo suggested]"@,
        MessageAction::RequestedPeer { button_id } => {
            "[peer shared, button "@ + decimal(button_id as int) + "]"@
        },
        MessageAction::SetChatWallPaper { for_both } => {
            "[wallpaper changed"@ + (if for_both {
                ", for both"@
            } else {
                Seq::<char>::empty()
            }) + "]"@
        },
        MessageAction::GiftCode { days, slug } => {
            "[gift code, "@ + decimal(days as int) + " days, slug: "@ + slug@ + "]"@
        },
        MessageAction::GiveawayLaunch { stars } => {
            (match stars {
                Some(v) => "[giveaway launched, "@ + decimal(v as int) + " stars]"@,
                None => "[giveaway launched]"@,
            })
        },
        MessageAction::GiveawayResults { winners_count, unclaimed_count } => {
            "[giveaway results: "@ + decimal(winners_count as int) + " winners, "@
                + decimal(unclaimed_count as int) + " unclaimed]"@
        },
        MessageAction::BoostApply { boosts } => {
            "[boost x"@ + decimal(boosts as int) + "]"@
        },
        MessageAction::RequestedPeerSentMe { button_id } => {
            "[peer shared to me, button "@ + decimal(button_id as int) + "]"@
        },
        MessageAction::PaymentRefunded { total_amount, currency } => {
            "[payment refunded: "@ + decimal(total_amount as int) + " "@ + currency@ + "]"@
        },
        MessageAction::GiftStars { stars, amount, currency } => {
            "[gift "@ + decimal(stars as int) + " stars, "@ + decimal(amount as int) + " "@
                + currency@ + "]"@
        },
        MessageAction::PrizeStars { stars, giveaway_msg_id } => {
            "[prize "@ + decimal(stars as int) + " stars, giveaway msg "@
                + decimal(giveaway_msg_id as int) + "]"@
        },
        MessageAction::StarGift { converted, upgraded, refunded } => {
            "[star gift"@ + (if converted {
                ", converted"@
            } else {
                Seq::<char>::empty()
            }) + (if upgraded {
                ", upgraded"@
            } else {
                Seq::<char>::empty()
            }) + (if refunded {
                ", refunded"@
            } else {
                Seq::<char>::empty()
            }) + "]"@
        },
        MessageAction::StarGiftUnique { upgrade, transferred, transfer_stars } => {
            "[unique star gift"@ + (if upgrade {
                ", upgrade"@
            } else {
                Seq::<char>::empty()
            }) + (if transferred {
                ", transferred"@
            } else {
                Seq::<char>::empty()
            }) + (match transfer_stars {
                Some(v) => ", transfer cost: "@ + decimal(v as int),
                None => Seq::<char>::empty(),
            }) + "]"@
        },
        MessageAction::PaidMessagesRefunded { count, stars } => {
            "[paid messages refunded: "@ + decimal(count as int) + " msgs, "@
                + decimal(stars as int) + " stars]"@
        },
        MessageAction::PaidMessagesPrice { stars } => {
            "[paid message price: "@ + decimal(stars as int) + " stars]"@
        },
        MessageAction::ConferenceCall { video, missed, active, duration } => {
            "["@ + (if video {
                "video conference"@
            } else {
                "conference call"@
            }) + (if missed {
                ", missed"@
            } else {
                (if active {
                    ", active"@
                } else {
                    Seq::<char>::empty()
                })
            }) + (match duration {
                Some(v) => ", "@ + decimal(v as int) + " sec]"@,
                None => "]"@,
            })
        },
        MessageAction::TodoCompletions { completed, incompleted } => {
            "[tasks: "@ + decimal(completed as int) + " completed, "@
                + decimal(incompleted as int) + " uncompleted]"@
        },
        MessageAction::TodoAppendTasks { tasks } => {
            "["@ + decimal(tasks as int) + " tasks added]"@
        },
        MessageAction::SuggestedPostApproval { rejected, reject_comment } => {
            if rejected {
                match reject_comment {
                    Some(c) => "[suggested post rejected: "@ + c@ + "]"@,
                    None => "[suggested post rejected]"@,
                }
            } else {
                "[suggested post approved]"@
            }
        },
        MessageAction::SuggestedPostSuccess => "[suggested post published]"@,
        MessageAction::SuggestedPostRefund { payer_initiated } => {
            "[suggested post refund"@ + (if payer_initiated {
                " (payer initiated)"@
            } else {
                Seq::<char>::empty()
            }) + "]"@
        },
        MessageAction::GiftTon { crypto_amount, crypto_currency, amount, currency } => {
            "[gift TON: "@ + decimal(crypto_amount as int) + " "@ + crypto_currency@ + ", "@
                + decimal(amount as int) + " "@ + currency@ + "]"@
        },
        MessageAction::SuggestBirthday { birthday } => {
            "[birthday suggested: "@ + birthday@ + "]"@
        },
        MessageAction::StarGiftPurchaseOffer { accepted, declined } => {
            "[star gift purchase offer"@ + (if accepted {
                ", accepted"@
            } else {
                (if declined {
                    ", declined"@
                } else {
                    Seq::<char>::empty()
                })
            }) + "]"@
        },
        MessageAction::StarGiftPurchaseOfferDeclined { expired } => {
            "[star gift offer declined"@ + (if expired {
                " (expired)"@
            } else {
                Seq::<char>::empty()
            }) + "]"@
        },
        MessageAction::NewCreatorPending { new_creator_id } => {
            "[ownership transfer to "@ + decimal(new_creator_id as int) + " pending]"@
        },
        MessageAction::ChangeCreator { new_creator_id } => {
            "[ownership transferred to "@ + decimal(new_creator_id as int) + "]"@
        },
    }
}

fn topic_parts(title: &Option<String>, closed: &Option<bool>, hidden: &Option<bool>) -> (parts: Vec<
    String,
>)
    ensures
        texts(parts@) == topic_changes(*title, *closed, *hidden),
{
    let mut parts: Vec<String> = Vec::new();
    assert(texts(parts@) =~= Seq::<Seq<char>>::empty());
    if let Some(t) = title {
        let mut part = String::new();
        part.append("title: \"");
        part.append(t.as_str());
        part.append("\"");
        proof {
            lemma_texts_push(parts@, part);
            assert(part@ =~= "title: \""@ + t@ + "\""@);
        }
        parts.push(part);
    }
    if let Some(c) = closed {
        let part = if *c {
            "closed".to_owned()
        } else {
            "reopened".to_owned()
        };
        proof {
            lemma_texts_push(parts@, part);
        }
        parts.push(part);
    }
    if let Some(h) = hidden {
        let part = if *h {
            "hidden".to_owned()
        } else {
            "unhidden".to_owned()
        };
        proof {
            lemma_texts_push(parts@, part);
        }
        parts.push(part);
    }
    assert(texts(parts@) =~= topic_changes(*title, *closed, *hidden));
    parts
}

/// Describes a service message in words.
pub fn format(action: &MessageAction) -> (out: String)
    ensures
        out@ == action_text(*action),
{
    let mut out = String::new();
    match action {
        MessageAction::Empty => {
            out.append("[service message]");
            assert(out@ =~= action_text(*action));
        },
        MessageAction::ChatCreate { title, users } => {
            out.append("[chat created: \"");
            out.append(title.as_str());
            out.append("\", members: ");
            let ids = format_ids(users);
            out.append(ids.as_str());
            out.append("]");
            assert(out@ =~= action_text(*action));
        },
        MessageAction::ChatEditTitle { title } => {
            out.append("[title changed to \"");
            out.append(title.as_str());
            out.append("\"]");
            assert(out@ =~= action_text(*action));
        },
        MessageAction::ChatEditPhoto => {
            out.append("[chat photo updated]");
            assert(out@ =~= action_text(*action));
        },
        MessageAction::ChatDeletePhoto => {
            out.append("[chat photo removed]");
            assert(out@ =~= action_text(*action));
        },
        MessageAction::ChatAddUser { users } => {
            out.append("[users added: ");
            let ids = format_ids(users);
            out.append(ids.as_str());
            out.append("]");
            assert(out@ =~= action_text(*action));
        },
        MessageAction::ChatDeleteUser { user_id } => {
            out.append("[user removed: ");
            push_decimal(&mut out, *user_id);
            out.append("]");
            assert(out@ =~= action_text(*action));
        },
        MessageAction::ChatJoinedByLink { inviter_id } => {
            out.append("[joined via invite link from ");
            push_decimal(&mut out, *inviter_id);
            out.append("]");
            assert(out@ =~= action_text(*action));
        },
        MessageAction::ChatJoinedByRequest => {
            out.append("[joined by request]");
            assert(out@ =~= action_text(*action));
        },
        MessageAction::ChannelCreate { title } => {
            out.append("[channel created: \"");
            out.append(title.as_str());
            out.append("\"]");
            assert(out@ =~= action_text(*action));
        },
        MessageAction::ChatMigrateTo { channel_id } => {
            out.append("[migrated to supergroup ");
            push_decimal(&mut out, *channel_id);
            out.append("]");
            assert(out@ =~= action_text(*action));
        },
        MessageAction::ChannelMigrateFrom { title, chat_id } => {
            out.append("[supergroup created from chat \"");
            out.append(title.as_str());
            out.append("\", chat ");
            push_decimal(&mut out, *chat_id);
            out.append("]");
            assert(out@ =~= action_text(*action));
        },
        MessageAction::PinMessage => {
            out.append("[message pinned]");
            assert(out@ =~= action_text(*action));
        },
        MessageAction::HistoryClear => {
            out.append("[history cleared]");
            assert(out@ =~= action_text(*action));
        },
        MessageAction::GameScore { score, game_id } => {
            out.append("[game score: ");
            push_decimal(&mut out, *score);
            out.append(" in game ");
            push_decimal(&mut out, *game_id);
            out.append("]");
            assert(out@ =~= action_text(*action));
        },
        MessageAction::PaymentSentMe { total_amount, currency } => {
            out.append("[payment received: ");
            push_decimal(&mut out, *total_amount);
            out.append(" ");
            out.append(currency.as_str());
            out.append("]");
            assert(out@ =~= action_text(*action));
        },
        MessageAction::PaymentSent { total_amount, currency } => {
            out.append("[payment sent: ");
            push_decimal(&mut out, *total_amount);
            out.append(" ");
            out.append(currency.as_str());
            out.append("]");
            assert(out@ =~= action_text(*action));
        },
        MessageAction::PhoneCall { video, duration } => {
            out.append("[");
            if *video {
                out.append("video call");
            } else {
                out.append("call");
            }
            match duration {
                Some(v) => {
                    out.append(", ");
                    push_decimal(&mut out, *v);
                    out.append(" sec]");
                },
                None => {
                    out.append(", no answer]");
                },
            }
            assert(out@ =~= action_text(*action));
        },
        MessageAction::ScreenshotTaken => {
            out.append("[screenshot taken]");
            assert(out@ =~= action_text(*action));
        },
        MessageAction::CustomAction { message } => {
            out.append("[");
            out.append(message.as_str());
            out.append("]");
            assert(out@ =~= action_text(*action));
        },
        MessageAction::BotAllowed { domain } => {
            match domain {
                Some(v) => {
                    out.append("[bot allowed, domain: ");
                    out.append(v.as_str());
                    out.append("]");
                },
                None => {
                    out.append("[bot allowed]");
                },
            }
            assert(out@ =~= action_text(*action));
        },
        MessageAction::SecureValuesSentMe => {
            out.append("[passport data received]");
            assert(out@ =~= action_text(*action));
        },
        MessageAction::SecureValuesSent => {
            out.append("[passport data sent]");
            assert(out@ =~= action_text(*action));
        },
        MessageAction::ContactSignUp => {
            out.append("[joined Telegram]");
            assert(out@ =~= action_text(*action));
        },
        MessageAction::GeoProximityReached { distance } => {
            out.append("[proximity alert: ");
            push_decimal(&mut out, *distance);
            out.append(" m]");
            assert(out@ =~= action_text(*action));
        },
        MessageAction::GroupCall { duration } => {
            match duration {
                Some(v) => {
                    out.append("[group call, ");
                    push_decimal(&mut out, *v);
                    out.append(" sec]");
                },
                None => {
                    out.append("[group call started]");
                },
            }
            assert(out@ =~= action_text(*action));
        },
        MessageAction::InviteToGroupCall { users } => {
            out.append("[invited to group call: ");
            let ids = format_ids(users);
            out.append(ids.as_str());
            out.append("]");
            assert(out@ =~= action_text(*action));
        },
        MessageAction::SetMessagesTtl { period } => {
            if *period == 0 {
                out.append("[auto-delete disabled]");
            } else {
                out.append("[auto-delete: ");
                push_decimal(&mut out, *period);
                out.append(" sec]");
            }
            assert(out@ =~= action_text(*action));
        },
        MessageAction::GroupCallScheduled { schedule_date } => {
            out.append("[group call scheduled at ");
            push_decimal(&mut out, *schedule_date);
            out.append("]");
            assert(out@ =~= action_text(*action));
        },
        MessageAction::SetChatTheme { theme } => {
            out.append("[chat theme changed: ");
            out.append(theme.as_str());
            out.append("]");
            assert(out@ =~= action_text(*action));
        },
        MessageAction::WebViewDataSentMe { text } => {
            out.append("[webview data received: ");
            out.append(text.as_str());
            out.append("]");
            assert(out@ =~= action_text(*action));
        },
        MessageAction::WebViewDataSent { text } => {
            out.append("[webview data sent: ");
            out.append(text.as_str());
            out.append("]");
            assert(out@ =~= action_text(*action));
        },
        MessageAction::GiftPremium { days, amount, currency } => {
            out.append("[gift Premium, ");
            push_decimal(&mut out, *days);
            out.append(" days, ");
            push_decimal(&mut out, *amount);
            out.append(" ");
            out.append(currency.as_str());
            out.append("]");
            assert(out@ =~= action_text(*action));
        },
        MessageAction::TopicCreate { title } => {
            out.append("[topic created: \"");
            out.append(title.as_str());
            out.append("\"]");
            assert(out@ =~= action_text(*action));
        },
        MessageAction::TopicEdit { title, closed, hidden } => {
            let parts = topic_parts(title, closed, hidden);
            if parts.len() == 0 {
                out.append("[topic edited]");
            } else {
                let changes = join(&parts, ", ");
                out.append("[topic edited: ");
                out.append(changes.as_str());
                out.append("]");
            }
            assert(out@ =~= action_text(*action));
        },
        MessageAction::SuggestProfilePhoto => {
            out.append("[profile photo suggested]");
            assert(out@ =~= action_text(*action));
        },
        MessageAction::RequestedPeer { button_id } => {
            out.append("[peer shared, button ");
            push_decimal(&mut out, *button_id);
            out.append("]");
            assert(out@ =~= action_text(*action));
        },
        MessageAction::SetChatWallPaper { for_both } => {
            out.append("[wallpaper changed");
            if *for_both {
                out.append(", for both");
            }
            out.append("]");
            assert(out@ =~= action_text(*action));
        },
        MessageAction::GiftCode { days, slug } => {
            out.append("[gift code, ");
            push_decimal(&mut out, *days);
            out.append(" days, slug: ");
            out.append(slug.as_str());
            out.append("]");
            assert(out@ =~= action_text(*action));
        },
        MessageAction::GiveawayLaunch { stars } => {
            match stars {
                Some(v) => {
                    out.append("[giveaway launched, ");
                    push_decimal(&mut out, *v);
                    out.append(" stars]");
                },
                None => {
                    out.append("[giveaway launched]");
                },
            }
            assert(out@ =~= action_text(*action));
        },
        MessageAction::GiveawayResults { winners_count, unclaimed_count } => {
            out.append("[giveaway results: ");
            push_decimal(&mut out, *winners_count);
            out.append(" winners, ");
            push_decimal(&mut out, *unclaimed_count);
            out.append(" unclaimed]");
            assert(out@ =~= action_text(*action));
        },
        MessageAction::BoostApply { boosts } => {
            out.append("[boost x");
            push_decimal(&mut out, *boosts);
            out.append("]");
            assert(out@ =~= action_text(*action));
        },
        MessageAction::RequestedPeerSentMe { button_id } => {
            out.append("[peer shared to me, button ");
            push_decimal(&mut out, *button_id);
            out.append("]");
            assert(out@ =~= action_text(*action));
        },
        MessageAction::PaymentRefunded { total_amount, currency } => {
            out.append("[payment refunded: ");
            push_decimal(&mut out, *total_amount);
            out.append(" ");
            out.append(currency.as_str());
            out.append("]");
            assert(out@ =~= action_text(*action));
        },
        MessageAction::GiftStars { stars, amount, currency } => {
            out.append("[gift ");
            push_decimal(&mut out, *stars);
            out.append(" stars, ");
            push_decimal(&mut out, *amount);
            out.append(" ");
            out.append(currency.as_str());
            out.append("]");
            assert(out@ =~= action_text(*action));
        },
        MessageAction::PrizeStars { stars, giveaway_msg_id } => {
            out.append("[prize ");
            push_decimal(&mut out, *stars);
            out.append(" stars, giveaway msg ");
            push_decimal(&mut out, *giveaway_msg_id);
            out.append("]");
            assert(out@ =~= action_text(*action));
        },
        MessageAction::StarGift { converted, upgraded, refunded } => {
            out.append("[star gift");
            if *converted {
                out.append(", converted");
            }
            if *upgraded {
                out.append(", upgraded");
            }
            if *refunded {
                out.append(", refunded");
            }
            out.append("]");
            assert(out@ =~= action_text(*action));
        },
        MessageAction::StarGiftUnique { upgrade, transferred, transfer_stars } => {
            out.append("[unique star gift");
            if *upgrade {
                out.append(", upgrade");
            }
            if *transferred {
                out.append(", transferred");
            }
            match transfer_stars {
                Some(v) => {
                    out.append(", transfer cost: ");
                    push_decimal(&mut out, *v);
                },
                None => {
                },
            }
            out.append("]");
            assert(out@ =~= action_text(*action));
        },
        MessageAction::PaidMessagesRefunded { count, stars } => {
            out.append("[paid messages refunded: ");
            push_decimal(&mut out, *count);
            out.append(" msgs, ");
            push_decimal(&mut out, *stars);
            out.append(" stars]");
            assert(out@ =~= action_text(*action));
        },
        MessageAction::PaidMessagesPrice { stars } => {
            out.append("[paid message price: ");
            push_decimal(&mut out, *stars);
            out.append(" stars]");
            assert(out@ =~= action_text(*action));
        },
        MessageAction::ConferenceCall { video, missed, active, duration } => {
            out.append("[");
            if *video {
                out.append("video conference");
            } else {
                out.append("conference call");
            }
            if *missed {
                out.append(", missed");
            } else {
                if *active {
                    out.append(", active");
                }
            }
            match duration {
                Some(v) => {
                    out.append(", ");
                    push_decimal(&mut out, *v);
                    out.append(" sec]");
                },
                None => {
                    out.append("]");
                },
            }
            assert(out@ =~= action_text(*action));
        },
        MessageAction::TodoCompletions { completed, incompleted } => {
            out.append("[tasks: ");
            push_digits(&mut out, *completed as u64);
            out.append(" completed, ");
            push_digits(&mut out, *incompleted as u64);
            out.append(" uncompleted]");
            assert(out@ =~= action_text(*action));
        },
        MessageAction::TodoAppendTasks { tasks } => {
            out.append("[");
            push_digits(&mut out, *tasks as u64);
            out.append(" tasks added]");
            assert(out@ =~= action_text(*action));
        },
        MessageAction::SuggestedPostApproval { rejected, reject_comment } => {
            if *rejected {
                match reject_comment {
                    Some(c) => {
                        out.append("[suggested post rejected: ");
                        out.append(c.as_str());
                        out.append("]");
                    },
                    None => {
                        out.append("[suggested post rejected]");
                    },
                }
            } else {
                out.append("[suggested post approved]");
            }
            assert(out@ =~= action_text(*action));
        },
        MessageAction::SuggestedPostSuccess => {
            out.append("[suggested post published]");
            assert(out@ =~= action_text(*action));
        },
        MessageAction::SuggestedPostRefund { payer_initiated } => {
            out.append("[suggested post refund");
            if *payer_initiated {
                out.append(" (payer initiated)");
            }
            out.append("]");
            assert(out@ =~= action_text(*action));
        },
        MessageAction::GiftTon { crypto_amount, crypto_currency, amount, currency } => {
            out.append("[gift TON: ");
            push_decimal(&mut out, *crypto_amount);
            out.append(" ");
            out.append(crypto_currency.as_str());
            out.append(", ");
            push_decimal(&mut out, *amount);
            out.append(" ");
            out.append(currency.as_str());
            out.append("]");
            assert(out@ =~= action_text(*action));
        },
        MessageAction::SuggestBirthday { birthday } => {
            out.append("[birthday suggested: ");
            out.append(birthday.as_str());
            out.append("]");
            assert(out@ =~= action_text(*action));
        },
        MessageAction::StarGiftPurchaseOffer { accepted, declined } => {
            out.append("[star gift purchase offer");
            if *accepted {
                out.append(", accepted");
            } else {
                if *declined {
                    out.append(", declined");
                }
            }
            out.append("]");
            assert(out@ =~= action_text(*action));
        },
        MessageAction::StarGiftPurchaseOfferDeclined { expired } => {
            out.append("[star gift offer declined");
            if *expired {
                out.append(" (expired)");
            }
            out.append("]");
            assert(out@ =~= action_text(*action));
        },
        MessageAction::NewCreatorPending { new_creator_id } => {
            out.append("[ownership transfer to ");
            push_decimal(&mut out, *new_creator_id);
            out.append(" pending]");
            assert(out@ =~= action_text(*action));
        },
        MessageAction::ChangeCreator { new_creator_id } => {
            out.append("[ownership transferred to ");
            push_decimal(&mut out, *new_creator_id);
            out.append("]");
            assert(out@ =~= action_text(*action));
        },
    }
    out
}

} // verus!
