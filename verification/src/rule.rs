//! Rules of a schema: a label, a condition and a conclusion.

use crate::error::{Error, ErrorView};
use vstd::prelude::*;
use vstd::string::*;

verus! {

/// What came of parsing a text of the query language for one kind of
/// construct.
#[derive(Debug)]
pub enum Parsed {
    /// The text is a construct of the kind that was asked for; this is the
    /// construct as the query language prints it.
    Accepted(String),
    /// The text is a construct of another kind; this is its description.
    Mismatch(String),
    /// The text is no construct at all; this is the parser's description of
    /// the error.
    Failed(String),
}

/// The mathematical value of a [`Parsed`].
pub enum ParsedView {
    Accepted(Seq<char>),
    Mismatch(Seq<char>),
    Failed(Seq<char>),
}

impl View for Parsed {
    type V = ParsedView;

    open spec fn view(&self) -> ParsedView {
        match *self {
            Parsed::Accepted(text) => ParsedView::Accepted(text@),
            Parsed::Mismatch(description) => ParsedView::Mismatch(description@),
            Parsed::Failed(description) => ParsedView::Failed(description@),
        }
    }
}

/// A rule, as the wire message holds it: the condition and the conclusion
/// are texts in the query language.
#[derive(Debug)]
pub struct RuleProto {
    pub label: String,
    pub when: String,
    pub then_: String,
}

/// The mathematical value of a [`Rule`] and of a [`RuleProto`].
pub struct RuleView {
    pub label: Seq<char>,
    pub when: Seq<char>,
    pub then_: Seq<char>,
}

impl View for RuleProto {
    type V = RuleView;

    open spec fn view(&self) -> RuleView {
        RuleView { label: self.label@, when: self.when@, then_: self.then_@ }
    }
}

/// A rule of a schema. Its condition is a conjunction and its conclusion a
/// statement about a thing; both are held as the query language prints
/// them.
#[derive(Debug)]
pub struct Rule {
    label: String,
    when: String,
    then_: String,
}

impl View for Rule {
    type V = RuleView;

    closed spec fn view(&self) -> RuleView {
        RuleView { label: self.label@, when: self.when@, then_: self.then_@ }
    }
}

/// Why no rule can be made of the two outcomes, if none can: the condition
/// is looked at first.
pub open spec fn rule_error(when: ParsedView, then_: ParsedView) -> Option<ErrorView> {
    match when {
        ParsedView::Mismatch(other) => Some(ErrorView::Other("When parse error: "@ + other)),
        ParsedView::Failed(error) => Some(ErrorView::Other(error)),
        ParsedView::Accepted(_) => match then_ {
            ParsedView::Mismatch(other) => Some(ErrorView::Other("Then parse error: "@ + other)),
            ParsedView::Failed(error) => Some(ErrorView::Other(error)),
            ParsedView::Accepted(_) => None,
        },
    }
}

/// The rule that is made of a label and two accepted outcomes.
pub open spec fn rule_of(label: Seq<char>, when: ParsedView, then_: ParsedView) -> RuleView {
    RuleView {
        label,
        when: match when {
            ParsedView::Accepted(text) => text,
            _ => Seq::empty(),
        },
        then_: match then_ {
            ParsedView::Accepted(text) => text,
            _ => Seq::empty(),
        },
    }
}

impl Rule {
    /// Makes a rule of a label and of what came of parsing its condition and
    /// its conclusion. The condition has to be a conjunction and the
    /// conclusion a statement about a thing; otherwise the rule is refused
    /// with an `Other` error that describes what was found, the condition
    /// first.
    pub fn from_parsed(label: String, when: Parsed, then_: Parsed) -> (res: Result<Rule, Error>)
        ensures
            match res {
                Ok(rule) => rule_error(when@, then_@) is None && rule@ == rule_of(
                    label@,
                    when@,
                    then_@,
                ),
                Err(error) => rule_error(when@, then_@) == Some(error@),
            },
    {
        let when = match when {
            Parsed::Accepted(text) => text,
            Parsed::Mismatch(other) => {
                let mut message = String::from_str("When parse error: ");
                message.append(other.as_str());
                return Err(Error::Other(message));
            },
            Parsed::Failed(error) => {
                return Err(Error::Other(error));
            },
        };
        let then_ = match then_ {
            Parsed::Accepted(text) => text,
            Parsed::Mismatch(other) => {
                let mut message = String::from_str("Then parse error: ");
                message.append(other.as_str());
                return Err(Error::Other(message));
            },
            Parsed::Failed(error) => {
                return Err(Error::Other(error));
            },
        };
        Ok(Rule { label, when, then_ })
    }

    /// The label of the rule.
    pub fn label(&self) -> (label: &str)
        ensures
            label@ == self@.label,
    {
        self.label.as_str()
    }

    /// The condition of the rule, as the query language prints it.
    pub fn when(&self) -> (text: &str)
        ensures
            text@ == self@.when,
    {
        self.when.as_str()
    }

    /// The conclusion of the rule, as the query language prints it.
    pub fn then_(&self) -> (text: &str)
        ensures
            text@ == self@.then_,
    {
        self.then_.as_str()
    }

    /// The rule as it is sent: its label, its condition and its conclusion.
    pub fn into_proto(self) -> (proto: RuleProto)
        ensures
            proto@ == self@,
    {
        RuleProto { label: self.label, when: self.when, then_: self.then_ }
    }
}

} // verus!
