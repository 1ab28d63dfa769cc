//! The four command handlers and the ready-event line. Each handler is a
//! pure computation from the values the gateway hands over to one reply;
//! sending the reply, and the platform calls around it, happen outside the
//! library.

use crate::reply::Reply;
use rand::Rng;
use crate::text::{dec_digits, u64_to_string};
use vstd::prelude::*;
use vstd::string::*;

verus! {

/// The text the `ping` command replies with.
pub open spec fn spec_ping_text() -> Seq<char> {
    "Pong!"@
}

/// Handles `ping`: one plain-text reply, always the same.
pub fn ping_command() -> (r: Reply)
    ensures
        !r.is_embed(),
        r.text() == spec_ping_text(),
{
    Reply::PlainText(String::from_str("Pong!"))
}

/// The side count `roll` uses: the one given, or six when none is.
pub open spec fn spec_effective_sides(sides: Option<u32>) -> u32 {
    match sides {
        Some(s) => s,
        None => 6,
    }
}

pub fn effective_sides(sides: Option<u32>) -> (r: u32)
    ensures
        r == spec_effective_sides(sides),
{
    match sides {
        Some(s) => s,
        None => 6,
    }
}

/// The name `roll` shows: inside a community, the nickname set there when
/// one is; the global display name otherwise.
pub open spec fn spec_shown_name(
    in_guild: bool,
    nick: Option<Seq<char>>,
    display: Seq<char>,
) -> Seq<char> {
    if in_guild && nick is Some {
        nick->0
    } else {
        display
    }
}

/// The description of the `roll` embed: the value as a heading, then the
/// side count and the shown name as a caption.
pub open spec fn spec_roll_text(value: u32, sides: u32, name: Seq<char>) -> Seq<char> {
    "# "@ + dec_digits(value as nat) + "\n-# "@ + dec_digits(sides as nat) + " sides (**"@ + name
        + "**)"@
}

/// Relies on rand's `Rng::random_range` over `1..=sides`: a draw from a
/// nonempty inclusive range lies in that range (it panics on an empty one,
/// which `sides >= 1` rules out).
#[verifier::external_body]
fn draw(sides: u32) -> (r: u32)
    requires
        1 <= sides,
    ensures
        1 <= r <= sides,
{
    rand::rng().random_range(1..=sides)
}

/// One die roll: a value in `[1, sides]`, over six sides when none are
/// given. Which value comes out is left to the generator; only the range is
/// promised.
pub fn roll_value(sides: Option<u32>) -> (r: u32)
    requires
        spec_effective_sides(sides) >= 1,
    ensures
        1 <= r <= spec_effective_sides(sides),
{
    draw(effective_sides(sides))
}

/// Renders the `roll` embed description for one drawn value.
pub fn render_roll_text(value: u32, sides: u32, name: &str) -> (r: String)
    ensures
        r@ == spec_roll_text(value, sides, name@),
{
    let mut r = String::from_str("# ");
    let v = u64_to_string(value as u64);
    r.append(v.as_str());
    r.append("\n-# ");
    let s = u64_to_string(sides as u64);
    r.append(s.as_str());
    r.append(" sides (**");
    r.append(name);
    r.append("**)");
    proof {
        assert(r@ =~= spec_roll_text(value, sides, name@));
    }
    r
}

/// Handles `roll`: draws one value over the effective side count and
/// renders the embed around it. `in_guild` says whether the invocation came
/// from inside a community, `nick` is the nickname set there, if any, and
/// `display` the global display name.
pub fn roll_command(sides: Option<u32>, in_guild: bool, nick: Option<String>, display: &str) -> (r:
    Reply)
    requires
        spec_effective_sides(sides) >= 1,
    ensures
        r.is_embed(),
        exists|v: u32|
            1 <= v <= spec_effective_sides(sides) && r.text() == spec_roll_text(
                v,
                spec_effective_sides(sides),
                spec_shown_name(in_guild, nick.deep_view(), display@),
            ),
{
    let value = roll_value(sides);
    let name: &str = if in_guild {
        match &nick {
            Some(n) => n.as_str(),
            None => display,
        }
    } else {
        display
    };
    let text = render_roll_text(value, effective_sides(sides), name);
    let r = Reply::StructuredEmbed(text);
    proof {
        assert(name@ == spec_shown_name(in_guild, nick.deep_view(), display@));
        assert(1 <= value <= spec_effective_sides(sides) && r.text() == spec_roll_text(
            value,
            spec_effective_sides(sides),
            spec_shown_name(in_guild, nick.deep_view(), display@),
        ));
    }
    r
}

/// Omitting the side count and asking for six sides read the same: the
/// effective counts agree, so for any drawn value the rendered text agrees
/// too.
pub proof fn lemma_roll_default_is_six(value: u32, name: Seq<char>)
    ensures
        spec_effective_sides(None) == spec_effective_sides(Some(6u32)),
        spec_roll_text(value, spec_effective_sides(None), name) == spec_roll_text(
            value,
            spec_effective_sides(Some(6u32)),
            name,
        ),
{
}

/// How the created thread is typed.
#[derive(Clone, Copy, PartialEq, Eq, Structural, Debug)]
pub enum ThreadKind {
    Public,
    Private,
}

/// The kind of thread `thread` creates: private exactly when the flag is
/// given and set.
pub fn thread_kind(private: Option<bool>) -> (k: ThreadKind)
    ensures
        k == ThreadKind::Private <==> private == Some(true),
{
    match private {
        Some(true) => ThreadKind::Private,
        _ => ThreadKind::Public,
    }
}

/// The description of the `thread` confirmation embed: what was created,
/// and a mention of the new thread's channel.
pub open spec fn spec_thread_text(private: bool, channel_id: u64) -> Seq<char> {
    (if private {
        "Private thread"@
    } else {
        "Thread"@
    }) + " created: <#"@ + dec_digits(channel_id as nat) + ">"@
}

/// Handles the reply of `thread`, once the platform has created the thread
/// and handed back its channel identifier.
pub fn thread_command(private: Option<bool>, channel_id: u64) -> (r: Reply)
    ensures
        r.is_embed(),
        r.text() == spec_thread_text(private == Some(true), channel_id),
{
    let head: &str = match private {
        Some(true) => "Private thread",
        _ => "Thread",
    };
    let mut text = String::from_str(head);
    text.append(" created: <#");
    let c = u64_to_string(channel_id);
    text.append(c.as_str());
    text.append(">");
    let r = Reply::StructuredEmbed(text);
    proof {
        assert(r.text() =~= spec_thread_text(private == Some(true), channel_id));
    }
    r
}

/// A platform user, as the library reads one: the stable identifier, whose
/// upper bits hold the creation time, and the name shown for the user.
pub struct User {
    pub id: u64,
    pub name: String,
}

/// Milliseconds between the Unix epoch and the platform's own epoch, the
/// start of 2015.
pub const PLATFORM_EPOCH_MS: u64 = 1420070400000;

/// When the account with identifier `id` was created, in milliseconds since
/// the Unix epoch: the identifier's upper 42 bits count milliseconds from
/// the platform epoch.
pub open spec fn spec_created_ms(id: u64) -> int {
    (id >> 22) + PLATFORM_EPOCH_MS
}

pub fn created_ms(id: u64) -> (r: u64)
    ensures
        r == spec_created_ms(id),
{
    proof {
        assert((id >> 22) <= 0x3FF_FFFF_FFFFu64) by (bit_vector);
    }
    (id >> 22) + PLATFORM_EPOCH_MS
}

/// Whose age `age` reports: the user named, or the invoker when none is.
pub fn age_target(user: Option<User>, invoker: User) -> (t: User)
    ensures
        user is Some ==> t == user->0,
        user is None ==> t == invoker,
{
    match user {
        Some(u) => u,
        None => invoker,
    }
}

/// The text `age` replies with: the target's name, then the creation time
/// in seconds inside the platform's timestamp markup, which the platform
/// renders in its default style.
pub open spec fn spec_age_text(name: Seq<char>, id: u64) -> Seq<char> {
    name + "'s account was created at <t:"@ + dec_digits((spec_created_ms(id) / 1000) as nat)
        + ">"@
}

/// Handles `age` for the chosen target.
pub fn age_command(target: &User) -> (r: Reply)
    ensures
        !r.is_embed(),
        r.text() == spec_age_text(target.name@, target.id),
{
    let ms = created_ms(target.id);
    let secs = ms / 1000;
    let mut text = target.name.clone();
    text.append("'s account was created at <t:");
    let s = u64_to_string(secs);
    text.append(s.as_str());
    text.append(">");
    let r = Reply::PlainText(text);
    proof {
        assert(r.text() =~= spec_age_text(target.name@, target.id));
    }
    r
}

/// The line logged when the gateway reports the connection ready.
pub open spec fn spec_ready_text(bot_name: Seq<char>) -> Seq<char> {
    bot_name + " is connected!"@
}

pub fn ready_message(bot_name: &str) -> (r: String)
    ensures
        r@ == spec_ready_text(bot_name@),
{
    let mut r = String::from_str(bot_name);
    r.append(" is connected!");
    proof {
        assert(r@ =~= spec_ready_text(bot_name@));
    }
    r
}

} // verus!
