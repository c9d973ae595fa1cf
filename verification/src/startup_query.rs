//! The one-shot terminal query at start-up: what is asked, and what is kept of the
//! replies until everything that was asked for has been answered.
use crate::text;
use vstd::prelude::*;

verus! {

/// A reply of the terminal, as the input reader tells it apart from keys.
#[derive(Debug)]
pub enum TerminalReply {
    /// A reply about a color, including its framing.
    Color(String),
    /// The parameters of the primary device attributes.
    DeviceAttributes(Vec<u16>),
}

/// Raw responses to a bounded, one-shot terminal start-up query.
#[derive(Debug)]
pub struct StartupAttributes {
    /// The reply about the foreground color, including its framing.
    pub foreground: Option<String>,
    /// The reply about the background color, including its framing.
    pub background: Option<String>,
    /// The device attributes, including the terminal class as the first parameter.
    pub device_attributes: Option<Vec<u16>>,
}

/// What is asked: the colors if they are wanted, and the device attributes.
pub fn startup_queries(colors: bool) -> (queries: String)
    ensures
        queries@ == (if colors {
            "\x1b]10;?\x1b\\\x1b]11;?\x1b\\"@ + "\x1b[c"@
        } else {
            "\x1b[c"@
        }),
{
    if colors {
        text::concat("\x1b]10;?\x1b\\\x1b]11;?\x1b\\", "\x1b[c")
    } else {
        "\x1b[c".to_owned()
    }
}

impl StartupAttributes {
    /// The attributes once a reply has come: the last reply about each color counts
    /// if colors were asked for, and the last device attributes count.
    pub open spec fn with_reply(self, colors: bool, reply: TerminalReply) -> StartupAttributes {
        match reply {
            TerminalReply::Color(response) => if !colors {
                self
            } else if "\x1b]10;"@.is_prefix_of(response@) {
                StartupAttributes { foreground: Some(response), ..self }
            } else if "\x1b]11;"@.is_prefix_of(response@) {
                StartupAttributes { background: Some(response), ..self }
            } else {
                self
            },
            TerminalReply::DeviceAttributes(params) => StartupAttributes {
                device_attributes: Some(params),
                ..self
            },
        }
    }

    /// Everything that was asked for has been answered.
    pub open spec fn answered(self, colors: bool) -> bool {
        self.device_attributes is Some && (colors ==> self.foreground is Some
            && self.background is Some)
    }

    /// Nothing has been answered.
    pub fn new() -> (attributes: Self)
        ensures
            attributes == (StartupAttributes {
                foreground: None,
                background: None,
                device_attributes: None,
            }),
    {
        StartupAttributes { foreground: None, background: None, device_attributes: None }
    }

    /// Take a reply, and say whether everything that was asked for has been
    /// answered.
    pub fn accept(&mut self, colors: bool, reply: TerminalReply) -> (answered: bool)
        ensures
            *final(self) == old(self).with_reply(colors, reply),
            answered == final(self).answered(colors),
    {
        match reply {
            TerminalReply::Color(response) => {
                if colors {
                    if text::starts_with(&response, "\x1b]10;") {
                        self.foreground = Some(response);
                    } else if text::starts_with(&response, "\x1b]11;") {
                        self.background = Some(response);
                    }
                }
            },
            TerminalReply::DeviceAttributes(params) => {
                self.device_attributes = Some(params);
            },
        }
        self.device_attributes.is_some() && (!colors || (self.foreground.is_some()
            && self.background.is_some()))
    }
}

/// What was answered stays answered, and colors that were not asked for are not
/// kept.
pub proof fn answers_accumulate(attributes: StartupAttributes, colors: bool, reply: TerminalReply)
    ensures
        attributes.answered(colors) ==> attributes.with_reply(colors, reply).answered(colors),
        attributes.with_reply(false, reply).foreground == attributes.foreground,
        attributes.with_reply(false, reply).background == attributes.background,
{
}

/// A reply is kept for what it is about: the foreground, the background or the device
/// attributes, as it came, over an earlier one; the rest stays. A reply about another color
/// changes nothing.
pub proof fn replies_are_kept_by_subject(
    attributes: StartupAttributes,
    response: String,
    params: Vec<u16>,
    rest: Seq<char>,
)
    ensures
        response@ == "\x1b]10;"@ + rest ==> attributes.with_reply(
            true,
            TerminalReply::Color(response),
        ) == (StartupAttributes { foreground: Some(response), ..attributes }),
        response@ == "\x1b]11;"@ + rest ==> attributes.with_reply(
            true,
            TerminalReply::Color(response),
        ) == (StartupAttributes { background: Some(response), ..attributes }),
        !"\x1b]10;"@.is_prefix_of(response@) && !"\x1b]11;"@.is_prefix_of(response@)
            ==> attributes.with_reply(true, TerminalReply::Color(response)) == attributes,
        attributes.with_reply(false, TerminalReply::Color(response)) == attributes,
        attributes.with_reply(true, TerminalReply::DeviceAttributes(params)) == (
        StartupAttributes { device_attributes: Some(params), ..attributes }),
        attributes.with_reply(false, TerminalReply::DeviceAttributes(params)) == (
        StartupAttributes { device_attributes: Some(params), ..attributes }),
{
    reveal_strlit("\x1b]10;");
    reveal_strlit("\x1b]11;");
    assert("\x1b]10;"@.len() == 5 && "\x1b]10;"@[3] == '0');
    assert("\x1b]11;"@.len() == 5 && "\x1b]11;"@[3] == '1');
    if response@ == "\x1b]10;"@ + rest {
        assert("\x1b]10;"@ =~= response@.subrange(0, 5));
    }
    if response@ == "\x1b]11;"@ + rest {
        assert("\x1b]11;"@ =~= response@.subrange(0, 5));
        assert(response@[3] == '1');
        if "\x1b]10;"@.is_prefix_of(response@) {
            assert(response@[3] == '0');
        }
    }
}

/// The query is answered once the device attributes have come and, where colors were asked
/// for, both colors.
pub proof fn answers_are_complete(attributes: StartupAttributes)
    ensures
        attributes.answered(false) <==> attributes.device_attributes is Some,
        attributes.answered(true) <==> attributes.device_attributes is Some
            && attributes.foreground is Some && attributes.background is Some,
{
}

/// The call that takes a reply keeps it by its subject, and says whether all is answered; a
/// new query has no answers.
pub proof fn accepting_keeps_the_reply(
    attributes: &mut StartupAttributes,
    params: Vec<u16>,
    colors: bool,
    answered: bool,
    fresh: StartupAttributes,
)
    requires
        call_ensures(
            StartupAttributes::accept,
            (attributes, colors, TerminalReply::DeviceAttributes(params)),
            answered,
        ),
        call_ensures(StartupAttributes::new, (), fresh),
    ensures
        final(attributes).device_attributes == Some(params),
        final(attributes).foreground == old(attributes).foreground,
        final(attributes).background == old(attributes).background,
        answered <==> !colors || old(attributes).foreground is Some && old(attributes).background
            is Some,
        fresh.foreground is None && fresh.background is None && fresh.device_attributes is None,
{
}

/// The call that takes a reply about the foreground keeps it as such, where colors were asked
/// for, and drops it where they were not; so it does with one about the background.
pub proof fn accepting_keeps_colors(
    front: &mut StartupAttributes,
    back: &mut StartupAttributes,
    foreground: String,
    background: String,
    colors: bool,
    rest: Seq<char>,
    answered: bool,
    complete: bool,
)
    requires
        call_ensures(
            StartupAttributes::accept,
            (front, colors, TerminalReply::Color(foreground)),
            answered,
        ),
        call_ensures(
            StartupAttributes::accept,
            (back, colors, TerminalReply::Color(background)),
            complete,
        ),
        foreground@ == "\x1b]10;"@ + rest,
        background@ == "\x1b]11;"@ + rest,
    ensures
        final(front).foreground == if colors {
            Some(foreground)
        } else {
            old(front).foreground
        },
        final(front).background == old(front).background,
        final(front).device_attributes == old(front).device_attributes,
        final(back).background == if colors {
            Some(background)
        } else {
            old(back).background
        },
        final(back).foreground == old(back).foreground,
        final(back).device_attributes == old(back).device_attributes,
{
    replies_are_kept_by_subject(*old(front), foreground, arbitrary(), rest);
    replies_are_kept_by_subject(*old(back), background, arbitrary(), rest);
}

} // verus!
