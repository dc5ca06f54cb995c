//! The embed command: what it sends for what it is given.

use vstd::prelude::*;
use vstd::string::StringExecFns;
use crate::color::{all_hex, hex_digit, hex_value, is_hex_digit};
use crate::escape::{escapes_resolved, resolve_escapes};
use crate::fields::{FieldView, fields_of, fields_view, parse_fields};
use crate::text::{chars_of, decimal, push_number, spells, text_of};
use crate::urls::{check_image_url, check_url, is_image_url, is_url};

verus! {

/// A place of an embed that shows an image.
#[derive(Debug, Clone, Copy, PartialEq, Eq, Structural)]
pub enum Slot {
    /// The icon beside the author.
    AuthorIcon,
    /// The icon beside the footer.
    FooterIcon,
    /// The image.
    Image,
    /// The thumbnail.
    Thumbnail,
}

/// `s` without the `#` at its start, however many there are.
pub open spec fn without_hashes(s: Seq<char>) -> Seq<char>
    decreases s.len(),
{
    if s.len() > 0 && s[0] == '#' {
        without_hashes(s.drop_first())
    } else {
        s
    }
}

/// `s` without the `+` at its start, if there is one.
pub open spec fn without_sign(s: Seq<char>) -> Seq<char> {
    if s.len() > 0 && s[0] == '+' {
        s.drop_first()
    } else {
        s
    }
}

/// The number that the hexadecimal digits `d` write.
pub open spec fn hex_number(d: Seq<char>) -> nat
    decreases d.len(),
{
    if d.len() == 0 {
        0
    } else {
        (16 * hex_number(d.drop_last()) + hex_value(d.last())) as nat
    }
}

/// The color that `s` writes: after any `#`, and a `+` if there is one, hexadecimal
/// digits, at least one, that write a number of at most 32 bits.
pub open spec fn embed_color(s: Seq<char>) -> Option<u32> {
    let d = without_sign(without_hashes(s));
    if d.len() > 0 && all_hex(d) && hex_number(d) <= u32::MAX {
        Some(hex_number(d) as u32)
    } else {
        None
    }
}

/// How a slot is called in what the user is told.
pub open spec fn slot_name(slot: Slot) -> Seq<char> {
    match slot {
        Slot::AuthorIcon => "author icon"@,
        Slot::FooterIcon => "footer icon"@,
        Slot::Image => "image"@,
        Slot::Thumbnail => "thumbnail"@,
    }
}

/// What a slot takes, as the user is told.
pub open spec fn slot_hint(slot: Slot) -> Seq<char> {
    match slot {
        Slot::AuthorIcon => "Must be a valid image URL or 'avatar'."@,
        _ => "Must be a valid image URL."@,
    }
}

/// What the user is told of an author address that is none.
pub open spec fn bad_author_url(url: Seq<char>) -> Seq<char> {
    "Invalid author URL format '"@ + url + "'. Must be a valid URL.\n"@
}

/// What the user is told of a color that is none.
pub open spec fn bad_color(color: Seq<char>) -> Seq<char> {
    "Invalid color format '"@ + color + "'. Use hexadecimal #RRGGBB format.\n"@
}

/// What the user is told of an image for `slot` that is neither an address of an image
/// nor the word `avatar`.
pub open spec fn bad_image(slot: Slot, input: Seq<char>) -> Seq<char> {
    "Invalid "@ + slot_name(slot) + " URL format '"@ + input + "'. "@ + slot_hint(slot) + "\n"@
}

/// What a user without an avatar is told who asks for it in `slot`.
pub open spec fn no_avatar(slot: Slot) -> Seq<char> {
    "You do not have an avatar to use as "@ + slot_name(slot) + ".\n"@
}

/// What the user is told of the image `input` for `slot`: nothing where it can be shown.
pub open spec fn image_complaint(slot: Slot, input: Option<Seq<char>>, avatar: Option<Seq<char>>)
    -> Seq<char> {
    match input {
        None => Seq::empty(),
        Some(input) => if !is_image_url(input) {
            bad_image(slot, input)
        } else if input == "avatar"@ && avatar is None {
            no_avatar(slot)
        } else {
            Seq::empty()
        },
    }
}

/// The address of the image that `input` asks for: the user's avatar for the word
/// `avatar`, the address itself for the address of an image, else none.
pub open spec fn image_address(input: Option<Seq<char>>, avatar: Option<Seq<char>>) -> Option<
    Seq<char>,
> {
    match input {
        None => None,
        Some(input) => if !is_image_url(input) {
            None
        } else if input == "avatar"@ {
            avatar
        } else {
            Some(input)
        },
    }
}

/// The number of `#` at the start of `t`.
fn count_hashes(t: &Vec<char>) -> (n: usize)
    ensures
        n <= t.len(),
        without_hashes(t@) == t@.subrange(n as int, t.len() as int),
{
    let mut n: usize = 0;
    assert(t@.subrange(0, t.len() as int) =~= t@);
    while n < t.len() && t[n] == '#'
        invariant
            n <= t.len(),
            without_hashes(t@) == without_hashes(t@.subrange(n as int, t.len() as int)),
        decreases t.len() - n,
    {
        assert(t@.subrange(n as int, t.len() as int).drop_first() =~= t@.subrange(
            n + 1,
            t.len() as int,
        ));
        n += 1;
    }
    n
}

/// A number is at least the number that fewer of its digits write.
proof fn lemma_hex_number_grows(d: Seq<char>, k: int)
    requires
        0 <= k <= d.len(),
    ensures
        hex_number(d.take(k)) <= hex_number(d),
    decreases d.len() - k,
{
    if k < d.len() {
        lemma_hex_number_grows(d.drop_last(), k);
        assert(d.drop_last().take(k) =~= d.take(k));
    } else {
        assert(d.take(k) =~= d);
    }
}

/// Reads a color as the embed command takes it: after any `#`, and a `+` if there is
/// one, hexadecimal digits, at least one, that write a number of at most 32 bits.
pub fn read_color(color: &str) -> (r: Option<u32>)
    ensures
        r == embed_color(color@),
{
    let t = chars_of(color);
    let hashes = count_hashes(&t);
    let start: usize = if hashes < t.len() && t[hashes] == '+' {
        hashes + 1
    } else {
        hashes
    };
    let ghost d = t@.subrange(start as int, t.len() as int);
    assert(d =~= without_sign(without_hashes(t@)));
    if start == t.len() {
        return None;
    }
    let mut value: u64 = 0;
    let mut k: usize = start;
    assert(d.take(0) =~= Seq::<char>::empty());
    while k < t.len()
        invariant
            start <= k <= t.len(),
            start < t.len(),
            d == t@.subrange(start as int, t.len() as int),
            d == without_sign(without_hashes(color@)),
            all_hex(d.take(k - start)),
            value == hex_number(d.take(k - start)),
            value <= u32::MAX,
        decreases t.len() - k,
    {
        let digit = match hex_digit(t[k]) {
            Some(digit) => digit,
            None => {
                assert(!is_hex_digit(d[k - start]));
                return None;
            },
        };
        proof {
            let next = d.take(k - start + 1);
            assert(next.drop_last() =~= d.take(k - start));
            assert(next.last() == t@[k as int]);
            assert(all_hex(next)) by {
                assert forall|m: int| 0 <= m < next.len() implies is_hex_digit(
                    #[trigger] next[m],
                ) by {
                    if m < k - start {
                        assert(next[m] == d.take(k - start)[m]);
                    }
                }
            }
        }
        value = value * 16 + digit as u64;
        if value > 0xffff_ffff {
            proof {
                lemma_hex_number_grows(d, k - start + 1);
            }
            return None;
        }
        k += 1;
    }
    assert(d.take(k - start) =~= d);
    Some(value as u32)
}

/// The text of `slot_name`.
fn slot_label(slot: Slot) -> (r: &'static str)
    ensures
        r@ == slot_name(slot),
{
    match slot {
        Slot::AuthorIcon => "author icon",
        Slot::FooterIcon => "footer icon",
        Slot::Image => "image",
        Slot::Thumbnail => "thumbnail",
    }
}

/// Reads what the user gives for the image in `slot`: the address to show, if there is
/// one, and what the user is told if there is none though one was asked for.
pub fn resolve_image(slot: Slot, input: Option<String>, avatar: &Option<String>) -> (r: (
    Option<String>,
    String,
))
    ensures
        text_of(r.0) == image_address(
            text_of(input),
            text_of(*avatar),
        ),
        r.1@ == image_complaint(
            slot,
            text_of(input),
            text_of(*avatar),
        ),
{
    let mut complaint = String::new();
    let input = match input {
        Some(input) => input,
        None => {
            return (None, complaint);
        },
    };
    if !check_image_url(input.as_str()) {
        complaint.append("Invalid ");
        complaint.append(slot_label(slot));
        complaint.append(" URL format '");
        complaint.append(input.as_str());
        complaint.append("'. ");
        match slot {
            Slot::AuthorIcon => complaint.append("Must be a valid image URL or 'avatar'."),
            _ => complaint.append("Must be a valid image URL."),
        }
        complaint.append("\n");
        assert(complaint@ =~= bad_image(slot, input@));
        return (None, complaint);
    }
    if spells(input.as_str(), "avatar") {
        match avatar {
            Some(address) => (Some(address.clone()), complaint),
            None => {
                complaint.append("You do not have an avatar to use as ");
                complaint.append(slot_label(slot));
                complaint.append(".\n");
                assert(complaint@ =~= no_avatar(slot));
                (None, complaint)
            },
        }
    } else {
        (Some(input), complaint)
    }
}

/// The number of bytes that `s` takes in UTF-8.
pub open spec fn byte_len(s: Seq<char>) -> nat {
    vstd::utf8::encode_utf8(s).len()
}

/// Whether a field with this name and this value can stand in an embed: neither is
/// empty, the name takes at most 256 bytes and the value at most 1024.
pub open spec fn field_fits(name: Seq<char>, value: Seq<char>) -> bool {
    name.len() > 0 && value.len() > 0 && byte_len(name) <= 256 && byte_len(value) <= 1024
}

/// What the user is told of the field with the given number, name and value: nothing
/// where the field fits.
pub open spec fn field_complaint(number: nat, name: Seq<char>, value: Seq<char>) -> Seq<char> {
    if name.len() == 0 || value.len() == 0 {
        "Field "@ + decimal(number) + " is invalid. Name and Value cannot be empty.\n"@
    } else if byte_len(name) > 256 {
        "Field "@ + decimal(number) + " name is too long ("@ + decimal(byte_len(name))
            + " characters). Maximum is 256.\n"@
    } else if byte_len(value) > 1024 {
        "Field "@ + decimal(number) + " value is too long ("@ + decimal(byte_len(value))
            + " characters). Maximum is 1024.\n"@
    } else {
        Seq::empty()
    }
}

/// What the user is told of the first `upto` fields, each counted from 1.
pub open spec fn field_complaints(fields: Seq<FieldView>, upto: int) -> Seq<char>
    decreases upto,
{
    if upto <= 0 {
        Seq::empty()
    } else {
        field_complaints(fields, upto - 1) + field_complaint(
            upto as nat,
            fields[upto - 1].0,
            fields[upto - 1].1,
        )
    }
}

/// Those of the first `upto` fields that fit, each with the escapes of its value
/// resolved.
pub open spec fn fields_kept(fields: Seq<FieldView>, upto: int) -> Seq<FieldView>
    decreases upto,
{
    if upto <= 0 {
        Seq::empty()
    } else {
        let field = fields[upto - 1];
        if field_fits(field.0, field.1) {
            fields_kept(fields, upto - 1).push((field.0, escapes_resolved(field.1), field.2))
        } else {
            fields_kept(fields, upto - 1)
        }
    }
}

/// Appends to `out` what the user is told of the field with the given number.
fn complain_of_field(out: &mut String, number: usize, name: &str, value: &str) -> (fits: bool)
    ensures
        fits == field_fits(name@, value@),
        final(out)@ == old(out)@ + field_complaint(number as nat, name@, value@),
{
    let name_len = name.as_bytes().len();
    let value_len = value.as_bytes().len();
    if name.is_empty() || value.is_empty() {
        out.append("Field ");
        push_number(out, number as u64);
        out.append(" is invalid. Name and Value cannot be empty.\n");
        assert(final(out)@ =~= old(out)@ + field_complaint(number as nat, name@, value@));
        false
    } else if name_len > 256 {
        out.append("Field ");
        push_number(out, number as u64);
        out.append(" name is too long (");
        push_number(out, name_len as u64);
        out.append(" characters). Maximum is 256.\n");
        assert(final(out)@ =~= old(out)@ + field_complaint(number as nat, name@, value@));
        false
    } else if value_len > 1024 {
        out.append("Field ");
        push_number(out, number as u64);
        out.append(" value is too long (");
        push_number(out, value_len as u64);
        out.append(" characters). Maximum is 1024.\n");
        assert(final(out)@ =~= old(out)@ + field_complaint(number as nat, name@, value@));
        false
    } else {
        assert(final(out)@ =~= old(out)@ + field_complaint(number as nat, name@, value@));
        true
    }
}

/// Sorts the fields of an embed: those that fit, each with the escapes of its value
/// resolved, and what the user is told of the others.
pub fn check_fields(fields: &Vec<(String, String, bool)>) -> (r: (
    Vec<(String, String, bool)>,
    String,
))
    ensures
        fields_view(r.0@) == fields_kept(fields_view(fields@), fields.len() as int),
        r.1@ == field_complaints(fields_view(fields@), fields.len() as int),
{
    let mut kept: Vec<(String, String, bool)> = Vec::new();
    let mut complaints = String::new();
    let ghost all = fields_view(fields@);
    let mut i: usize = 0;
    assert(fields_view(kept@) =~= fields_kept(all, 0));
    while i < fields.len()
        invariant
            i <= fields.len(),
            all == fields_view(fields@),
            fields_view(kept@) == fields_kept(all, i as int),
            complaints@ == field_complaints(all, i as int),
        decreases fields.len() - i,
    {
        let ghost before = fields_view(kept@);
        let field = &fields[i];
        assert(all[i as int] == (field.0@, field.1@, field.2));
        if complain_of_field(&mut complaints, i + 1, field.0.as_str(), field.1.as_str()) {
            let value = resolve_escapes(field.1.clone());
            kept.push((field.0.clone(), value, field.2));
            assert(fields_view(kept@) =~= before.push(
                (field.0@, escapes_resolved(field.1@), field.2),
            ));
        }
        i += 1;
    }
    (kept, complaints)
}

/// What the user gives the embed command.
#[derive(Debug, Clone, PartialEq, Eq)]
pub struct EmbedRequest {
    /// The author. Without one, `author_url` and `author_icon_url` play no part.
    pub author: Option<String>,
    /// The address that the author links to.
    pub author_url: Option<String>,
    /// The icon beside the author: the address of an image, or `avatar`.
    pub author_icon_url: Option<String>,
    /// The title.
    pub title: Option<String>,
    /// The description, in which backslash escapes count.
    pub description: String,
    /// The color, in hexadecimal notation.
    pub color: Option<String>,
    /// The fields, as `Name|Value|Inline;...`.
    pub fields: Option<String>,
    /// The footer. Without one, `footer_icon_url` plays no part.
    pub footer: Option<String>,
    /// The icon beside the footer: the address of an image, or `avatar`.
    pub footer_icon_url: Option<String>,
    /// Whether the embed shows the time at which it is sent.
    pub timestamp: Option<bool>,
    /// The image: the address of one, or `avatar`.
    pub image_url: Option<String>,
    /// The thumbnail: the address of an image, or `avatar`.
    pub thumbnail_url: Option<String>,
    /// A message to send with the embed, in which backslash escapes count.
    pub message: Option<String>,
}

/// The author of an embed.
#[derive(Debug, Clone, PartialEq, Eq)]
pub struct EmbedAuthor {
    pub name: String,
    pub url: Option<String>,
    pub icon_url: Option<String>,
}

/// The footer of an embed.
#[derive(Debug, Clone, PartialEq, Eq)]
pub struct EmbedFooter {
    pub text: String,
    pub icon_url: Option<String>,
}

/// An embed to send, and the message that goes with it.
#[derive(Debug, Clone, PartialEq, Eq)]
pub struct EmbedPlan {
    pub author: Option<EmbedAuthor>,
    pub title: Option<String>,
    pub description: String,
    pub color: Option<u32>,
    pub fields: Vec<(String, String, bool)>,
    pub footer: Option<EmbedFooter>,
    pub timestamp: bool,
    pub image: Option<String>,
    pub thumbnail: Option<String>,
    pub content: Option<String>,
}

/// What the user is told of the author's address and icon.
pub open spec fn author_complaints(request: EmbedRequest, avatar: Option<Seq<char>>) -> Seq<char> {
    match request.author {
        None => Seq::empty(),
        Some(_) => (match request.author_url {
            Some(url) => if is_url(url@) {
                Seq::empty()
            } else {
                bad_author_url(url@)
            },
            None => Seq::empty(),
        }) + image_complaint(Slot::AuthorIcon, text_of(request.author_icon_url), avatar),
    }
}

/// What the user is told of the color.
pub open spec fn color_complaint(request: EmbedRequest) -> Seq<char> {
    match request.color {
        Some(color) => if embed_color(color@) is Some {
            Seq::empty()
        } else {
            bad_color(color@)
        },
        None => Seq::empty(),
    }
}

/// The fields that the request writes, before they are held against the limits.
pub open spec fn requested_fields(request: EmbedRequest) -> Seq<FieldView> {
    match request.fields {
        Some(fields) => fields_of(fields@),
        None => Seq::empty(),
    }
}

/// What the user is told of the footer's icon.
pub open spec fn footer_complaints(request: EmbedRequest, avatar: Option<Seq<char>>) -> Seq<char> {
    match request.footer {
        None => Seq::empty(),
        Some(_) => image_complaint(Slot::FooterIcon, text_of(request.footer_icon_url), avatar),
    }
}

/// All that the user is told of a request, in the order of its parts: author, color,
/// fields, footer, image, thumbnail. It is empty where the embed can be sent.
pub open spec fn complaints(request: EmbedRequest, avatar: Option<Seq<char>>) -> Seq<char> {
    author_complaints(request, avatar) + color_complaint(request) + field_complaints(
        requested_fields(request),
        requested_fields(request).len() as int,
    ) + footer_complaints(request, avatar) + image_complaint(
        Slot::Image,
        text_of(request.image_url),
        avatar,
    ) + image_complaint(Slot::Thumbnail, text_of(request.thumbnail_url), avatar)
}

/// Whether `plan` is the embed that the request asks for.
pub open spec fn planned(plan: EmbedPlan, request: EmbedRequest, avatar: Option<Seq<char>>) -> bool {
    &&& match request.author {
        Some(name) => {
            &&& plan.author is Some
            &&& plan.author->0.name@ == name@
            &&& text_of(plan.author->0.url) == text_of(request.author_url)
            &&& text_of(plan.author->0.icon_url) == image_address(
                text_of(request.author_icon_url),
                avatar,
            )
        },
        None => plan.author is None,
    }
    &&& text_of(plan.title) == text_of(request.title)
    &&& plan.description@ == escapes_resolved(request.description@)
    &&& plan.color == (match request.color {
        Some(color) => embed_color(color@),
        None => None,
    })
    &&& fields_view(plan.fields@) == fields_kept(
        requested_fields(request),
        requested_fields(request).len() as int,
    )
    &&& match request.footer {
        Some(text) => {
            &&& plan.footer is Some
            &&& plan.footer->0.text@ == text@
            &&& text_of(plan.footer->0.icon_url) == image_address(
                text_of(request.footer_icon_url),
                avatar,
            )
        },
        None => plan.footer is None,
    }
    &&& plan.timestamp == (request.timestamp == Some(true))
    &&& text_of(plan.image) == image_address(text_of(request.image_url), avatar)
    &&& text_of(plan.thumbnail) == image_address(text_of(request.thumbnail_url), avatar)
    &&& text_of(plan.content) == (match request.message {
        Some(message) => Some(escapes_resolved(message@)),
        None => None,
    })
}

/// The author of the embed, and what the user is told of the address and the icon.
fn plan_author(
    author: Option<String>,
    author_url: Option<String>,
    author_icon_url: Option<String>,
    avatar: &Option<String>,
) -> (r: (Option<EmbedAuthor>, String))
    ensures
        match author {
            Some(name) => {
                &&& r.0 is Some
                &&& r.0->0.name@ == name@
                &&& text_of(r.0->0.url) == text_of(author_url)
                &&& text_of(r.0->0.icon_url) == image_address(
                    text_of(author_icon_url),
                    text_of(*avatar),
                )
                &&& r.1@ == (match author_url {
                    Some(url) => if is_url(url@) {
                        Seq::empty()
                    } else {
                        bad_author_url(url@)
                    },
                    None => Seq::empty(),
                }) + image_complaint(
                    Slot::AuthorIcon,
                    text_of(author_icon_url),
                    text_of(*avatar),
                )
            },
            None => r.0 is None && r.1@ == Seq::<char>::empty(),
        },
{
    let mut told = String::new();
    let name = match author {
        Some(name) => name,
        None => {
            return (None, told);
        },
    };
    match &author_url {
        Some(url) => {
            if !check_url(url.as_str()) {
                told.append("Invalid author URL format '");
                told.append(url.as_str());
                told.append("'. Must be a valid URL.\n");
                assert(told@ =~= bad_author_url(url@));
            }
        },
        None => {},
    }
    let ghost told_of_url = told@;
    let (icon_url, told_of_icon) = resolve_image(Slot::AuthorIcon, author_icon_url, avatar);
    told.append(told_of_icon.as_str());
    (Some(EmbedAuthor { name, url: author_url, icon_url }), told)
}

/// The footer of the embed, and what the user is told of the icon.
fn plan_footer(footer: Option<String>, footer_icon_url: Option<String>, avatar: &Option<String>)
    -> (r: (Option<EmbedFooter>, String))
    ensures
        match footer {
            Some(text) => {
                &&& r.0 is Some
                &&& r.0->0.text@ == text@
                &&& text_of(r.0->0.icon_url) == image_address(
                    text_of(footer_icon_url),
                    text_of(*avatar),
                )
                &&& r.1@ == image_complaint(
                    Slot::FooterIcon,
                    text_of(footer_icon_url),
                    text_of(*avatar),
                )
            },
            None => r.0 is None && r.1@ == Seq::<char>::empty(),
        },
{
    match footer {
        Some(text) => {
            let (icon_url, told) = resolve_image(Slot::FooterIcon, footer_icon_url, avatar);
            (Some(EmbedFooter { text, icon_url }), told)
        },
        None => (None, String::new()),
    }
}

/// The color of the embed, and what the user is told of it.
fn plan_color(color: &Option<String>) -> (r: (Option<u32>, String))
    ensures
        r.0 == (match *color {
            Some(color) => embed_color(color@),
            None => None,
        }),
        r.1@ == (match *color {
            Some(color) => if embed_color(color@) is Some {
                Seq::empty()
            } else {
                bad_color(color@)
            },
            None => Seq::empty(),
        }),
{
    let mut told = String::new();
    match color {
        Some(color) => {
            let read = read_color(color.as_str());
            if read.is_none() {
                told.append("Invalid color format '");
                told.append(color.as_str());
                told.append("'. Use hexadecimal #RRGGBB format.\n");
                assert(told@ =~= bad_color(color@));
            }
            (read, told)
        },
        None => (None, told),
    }
}

/// Plans the embed that a request asks for. `avatar` is the address of the user's
/// avatar, if the user has one. Where something in the request cannot be shown, the
/// result is what the user is told instead: one line for each such thing.
pub fn plan_embed(request: EmbedRequest, avatar: Option<String>) -> (r: Result<EmbedPlan, String>)
    ensures
        match r {
            Ok(plan) => complaints(request, text_of(avatar)).len() == 0 && planned(
                plan,
                request,
                text_of(avatar),
            ),
            Err(told) => told@.len() > 0 && told@ == complaints(request, text_of(avatar)),
        },
{
    let ghost wanted = requested_fields(request);
    let (author, told_of_author) = plan_author(
        request.author,
        request.author_url,
        request.author_icon_url,
        &avatar,
    );
    let (color, told_of_color) = plan_color(&request.color);
    let (fields, told_of_fields) = match request.fields {
        Some(fields) => check_fields(&parse_fields(fields)),
        None => (Vec::new(), String::new()),
    };
    proof {
        if request.fields is None {
            assert(fields_view(fields@) =~= fields_kept(wanted, 0));
        }
    }
    let (footer, told_of_footer) = plan_footer(request.footer, request.footer_icon_url, &avatar);
    let (image, told_of_image) = resolve_image(Slot::Image, request.image_url, &avatar);
    let (thumbnail, told_of_thumbnail) = resolve_image(
        Slot::Thumbnail,
        request.thumbnail_url,
        &avatar,
    );
    let mut told = told_of_author;
    told.append(told_of_color.as_str());
    told.append(told_of_fields.as_str());
    told.append(told_of_footer.as_str());
    told.append(told_of_image.as_str());
    told.append(told_of_thumbnail.as_str());
    assert(told@ == complaints(request, text_of(avatar)));
    if !told.as_str().is_empty() {
        return Err(told);
    }
    let content = match request.message {
        Some(message) => Some(resolve_escapes(message)),
        None => None,
    };
    let timestamp = match request.timestamp {
        Some(shown) => shown,
        None => false,
    };
    Ok(
        EmbedPlan {
            author,
            title: request.title,
            description: resolve_escapes(request.description),
            color,
            fields,
            footer,
            timestamp,
            image,
            thumbnail,
            content,
        },
    )
}

} // verus!
