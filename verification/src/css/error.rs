//! Parse errors of the selector language: one enum per grammar rule, each entry
//! carrying the byte offset in the source at which the rule failed.
use vstd::prelude::*;

use crate::css::patterns::text_pattern::CssChar;
use crate::text::{dec, push_str, push_usize, string_from_chars};

verus! {

/// A list of character classes, as reported by an exclusivity error.
#[derive(Debug, Clone)]
pub struct CharList(pub Vec<CssChar>);

impl CharList {
    /// The characters `chars`, each taken by its class.
    pub fn from_chars(chars: Vec<char>) -> (r: CharList)
        ensures
            r.0@ == chars@.map_values(|c: char| CssChar::spec_from_char(c)),
    {
        let mut v: Vec<CssChar> = Vec::new();
        let mut i: usize = 0;
        while i < chars.len()
            invariant
                0 <= i <= chars@.len(),
                v@ == chars@.subrange(0, i as int).map_values(|c: char| CssChar::spec_from_char(c)),
            decreases chars@.len() - i,
        {
            v.push(CssChar::from_char(chars[i]));
            i = i + 1;
            assert(chars@.subrange(0, i as int).map_values(|c: char| CssChar::spec_from_char(c))
                =~= v@);
        }
        assert(chars@.subrange(0, chars@.len() as int) =~= chars@);
        CharList(v)
    }
}

/// `[a, b, ...]`, each class by its display form.
pub open spec fn char_list_text(l: Seq<CssChar>) -> Seq<char> {
    "["@ + char_list_items(l) + "]"@
}

pub open spec fn char_list_items(l: Seq<CssChar>) -> Seq<char>
    decreases l.len(),
{
    if l.len() == 0 {
        Seq::empty()
    } else if l.len() == 1 {
        l[0].spec_text()
    } else {
        char_list_items(l.drop_last()) + ", "@ + l.last().spec_text()
    }
}

pub fn push_char_list(out: &mut Vec<char>, l: &CharList)
    ensures
        final(out)@ == old(out)@ + char_list_text(l.0@),
{
    push_str(out, "[");
    let ghost start = out@;
    let mut i: usize = 0;
    while i < l.0.len()
        invariant
            0 <= i <= l.0@.len(),
            out@ == start + char_list_items(l.0@.subrange(0, i as int)),
        decreases l.0@.len() - i,
    {
        let ghost before = out@;
        if i > 0 {
            push_str(out, ", ");
        }
        l.0[i].push_text(out);
        proof {
            let sub = l.0@.subrange(0, i + 1);
            assert(sub.drop_last() =~= l.0@.subrange(0, i as int));
            if i == 0 {
                assert(out@ =~= start + char_list_items(sub));
            } else {
                assert(out@ =~= start + char_list_items(sub));
            }
        }
        i = i + 1;
    }
    assert(l.0@.subrange(0, l.0@.len() as int) =~= l.0@);
    push_str(out, "]");
}

#[derive(Debug, Clone)]
pub enum TextPatternError {
    StartsWith(usize, char),
    Exclusively(usize, CharList),
}

/// The plain-value form of [`TextPatternError`].
pub enum TextPatternErrorV {
    StartsWith(usize, char),
    Exclusively(usize, Seq<CssChar>),
}

impl View for TextPatternError {
    type V = TextPatternErrorV;

    open spec fn view(&self) -> TextPatternErrorV {
        match self {
            TextPatternError::StartsWith(a0, a1) => TextPatternErrorV::StartsWith(*a0, *a1),
            TextPatternError::Exclusively(a0, a1) => TextPatternErrorV::Exclusively(*a0, a1.0@),
        }
    }
}

#[derive(Debug, Clone, Copy, PartialEq, Eq)]
pub enum QuotedStringError {
    Empty(usize),
    Unterminated(usize),
}

#[derive(Debug, Clone)]
pub enum IntegerPatternError {
    ParseFail(usize, String),
}

/// The plain-value form of [`IntegerPatternError`].
pub enum IntegerPatternErrorV {
    ParseFail(usize, Seq<char>),
}

impl View for IntegerPatternError {
    type V = IntegerPatternErrorV;

    open spec fn view(&self) -> IntegerPatternErrorV {
        match self {
            IntegerPatternError::ParseFail(a0, a1) => IntegerPatternErrorV::ParseFail(*a0, a1@),
        }
    }
}

#[derive(Debug, Clone, Copy, PartialEq, Eq)]
pub enum CaseIndicatorError {
    InvalidCaseIndicator(usize),
    MissingCaseIndicator(usize),
}

#[derive(Debug, Clone, Copy, PartialEq, Eq)]
pub enum AttributeOperatorError {
    InvalidAttributeOperator(usize),
    MissingEqualSign(usize),
}

#[derive(Debug, Clone, Copy, PartialEq, Eq)]
pub enum AttributeValueError {
    InvalidOperator(usize),
    InvalidValue(usize),
    InvalidCase(usize),
    MissingValue(usize),
}

#[derive(Debug, Clone)]
pub enum AttributePatternError {
    InvalidName(usize, String),
    ParseName(usize),
    ParseValue(usize),
}

/// The plain-value form of [`AttributePatternError`].
pub enum AttributePatternErrorV {
    InvalidName(usize, Seq<char>),
    ParseName(usize),
    ParseValue(usize),
}

impl View for AttributePatternError {
    type V = AttributePatternErrorV;

    open spec fn view(&self) -> AttributePatternErrorV {
        match self {
            AttributePatternError::InvalidName(a0, a1) => AttributePatternErrorV::InvalidName(*a0, a1@),
            AttributePatternError::ParseName(a0) => AttributePatternErrorV::ParseName(*a0),
            AttributePatternError::ParseValue(a0) => AttributePatternErrorV::ParseValue(*a0),
        }
    }
}

#[derive(Debug, Clone, Copy, PartialEq, Eq)]
pub enum OrdinalPatternError {
    Invalid(usize),
    InvalidStep(usize),
    InvalidOffset(usize),
    Unterminated(usize),
    EvenOrOdd(usize),
    MissingPlus(usize),
    MissingOffset(usize),
}

#[derive(Debug, Clone, Copy, PartialEq, Eq)]
pub enum ParenthesizedError {
    InvalidContent(usize),
    InvalidEndDelimiter(usize, char, char),
    MissingContent(usize),
    MissingEndDelimiter(usize, char),
}

#[derive(Debug, Clone, Copy, PartialEq, Eq)]
pub enum TagSelectorError {
    ParseFail(usize),
}

#[derive(Debug, Clone, Copy, PartialEq, Eq)]
pub enum IdSelectorError {
    ParseFail(usize),
    MissingId(usize),
}

#[derive(Debug, Clone, Copy, PartialEq, Eq)]
pub enum ClassSelectorError {
    ParseFail(usize),
    MissingClass(usize),
}

#[derive(Debug, Clone, Copy, PartialEq, Eq)]
pub enum AttributeSelectorError {
    ParseFail(usize),
    EmptyBrackets(usize),
}

#[derive(Debug, Clone, Copy, PartialEq, Eq)]
pub enum CompoundSelectorError {
    DuplicateId(usize),
    ExpectedClass(usize),
    ExpectedId(usize),
    ExpectedAttribute(usize),
    ExpectedPseudoClass(usize),
    UnexpectedChar(usize),
    ClassFail(usize),
    IdFail(usize),
    AttributeFail(usize),
    PseudoClassFail(usize),
}

#[derive(Debug, Clone, Copy, PartialEq, Eq)]
pub enum RelativeSelectorError {
    MissingSelector(usize),
    SelectorFail(usize),
}

#[derive(Debug, Clone, Copy, PartialEq, Eq)]
pub enum ComplexSelectorError {
    ParseFail(usize),
}

#[derive(Debug, Clone, Copy, PartialEq, Eq)]
pub enum ComplexRelativeSelectorError {
    ParseFail(usize),
}

#[derive(Debug, Clone, Copy, PartialEq, Eq)]
pub enum SelectorListError {
    ParseFail(usize),
    Unterminated(usize),
}

#[derive(Debug, Clone, Copy, PartialEq, Eq)]
pub enum RelativeSelectorListError {
    ParseFail(usize),
    Unterminated(usize),
}

#[derive(Debug, Clone, Copy, PartialEq, Eq)]
pub enum PseudoClassSelectorError {
    ParseFail(usize),
    MissingKeyword(usize),
    InvalidKeyword(usize),
    ParseParameter(usize),
    MissingParameter(usize),
    EmptyParameter(usize),
}

/// Any rule's error.
#[derive(Debug, Clone)]
pub enum ErrorKind {
    TextPattern(TextPatternError),
    QuotedString(QuotedStringError),
    IntegerPattern(IntegerPatternError),
    CaseIndicator(CaseIndicatorError),
    AttributeOperator(AttributeOperatorError),
    AttributeValue(AttributeValueError),
    AttributePattern(AttributePatternError),
    OrdinalPattern(OrdinalPatternError),
    Parenthesized(ParenthesizedError),
    TagSelector(TagSelectorError),
    IdSelector(IdSelectorError),
    ClassSelector(ClassSelectorError),
    AttributeSelector(AttributeSelectorError),
    CompoundSelector(CompoundSelectorError),
    RelativeSelector(RelativeSelectorError),
    ComplexSelector(ComplexSelectorError),
    ComplexRelativeSelector(ComplexRelativeSelectorError),
    SelectorList(SelectorListError),
    RelativeSelectorList(RelativeSelectorListError),
    PseudoClassSelector(PseudoClassSelectorError),
}

/// The plain-value form of [`ErrorKind`].
pub enum KindV {
    TextPattern(TextPatternErrorV),
    QuotedString(QuotedStringError),
    IntegerPattern(IntegerPatternErrorV),
    CaseIndicator(CaseIndicatorError),
    AttributeOperator(AttributeOperatorError),
    AttributeValue(AttributeValueError),
    AttributePattern(AttributePatternErrorV),
    OrdinalPattern(OrdinalPatternError),
    Parenthesized(ParenthesizedError),
    TagSelector(TagSelectorError),
    IdSelector(IdSelectorError),
    ClassSelector(ClassSelectorError),
    AttributeSelector(AttributeSelectorError),
    CompoundSelector(CompoundSelectorError),
    RelativeSelector(RelativeSelectorError),
    ComplexSelector(ComplexSelectorError),
    ComplexRelativeSelector(ComplexRelativeSelectorError),
    SelectorList(SelectorListError),
    RelativeSelectorList(RelativeSelectorListError),
    PseudoClassSelector(PseudoClassSelectorError),
}

impl View for ErrorKind {
    type V = KindV;

    open spec fn view(&self) -> KindV {
        match self {
            ErrorKind::TextPattern(e) => KindV::TextPattern(e@),
            ErrorKind::QuotedString(e) => KindV::QuotedString(*e),
            ErrorKind::IntegerPattern(e) => KindV::IntegerPattern(e@),
            ErrorKind::CaseIndicator(e) => KindV::CaseIndicator(*e),
            ErrorKind::AttributeOperator(e) => KindV::AttributeOperator(*e),
            ErrorKind::AttributeValue(e) => KindV::AttributeValue(*e),
            ErrorKind::AttributePattern(e) => KindV::AttributePattern(e@),
            ErrorKind::OrdinalPattern(e) => KindV::OrdinalPattern(*e),
            ErrorKind::Parenthesized(e) => KindV::Parenthesized(*e),
            ErrorKind::TagSelector(e) => KindV::TagSelector(*e),
            ErrorKind::IdSelector(e) => KindV::IdSelector(*e),
            ErrorKind::ClassSelector(e) => KindV::ClassSelector(*e),
            ErrorKind::AttributeSelector(e) => KindV::AttributeSelector(*e),
            ErrorKind::CompoundSelector(e) => KindV::CompoundSelector(*e),
            ErrorKind::RelativeSelector(e) => KindV::RelativeSelector(*e),
            ErrorKind::ComplexSelector(e) => KindV::ComplexSelector(*e),
            ErrorKind::ComplexRelativeSelector(e) => KindV::ComplexRelativeSelector(*e),
            ErrorKind::SelectorList(e) => KindV::SelectorList(*e),
            ErrorKind::RelativeSelectorList(e) => KindV::RelativeSelectorList(*e),
            ErrorKind::PseudoClassSelector(e) => KindV::PseudoClassSelector(*e),
        }
    }
}

/// The byte offset that an error reports.
pub open spec fn kind_index(k: KindV) -> usize {
    match k {
        KindV::TextPattern(TextPatternErrorV::StartsWith(i, _)) => i,
        KindV::TextPattern(TextPatternErrorV::Exclusively(i, _)) => i,
        KindV::QuotedString(QuotedStringError::Empty(i)) => i,
        KindV::QuotedString(QuotedStringError::Unterminated(i)) => i,
        KindV::IntegerPattern(IntegerPatternErrorV::ParseFail(i, _)) => i,
        KindV::CaseIndicator(CaseIndicatorError::InvalidCaseIndicator(i)) => i,
        KindV::CaseIndicator(CaseIndicatorError::MissingCaseIndicator(i)) => i,
        KindV::AttributeOperator(AttributeOperatorError::InvalidAttributeOperator(i)) => i,
        KindV::AttributeOperator(AttributeOperatorError::MissingEqualSign(i)) => i,
        KindV::AttributeValue(AttributeValueError::InvalidOperator(i)) => i,
        KindV::AttributeValue(AttributeValueError::InvalidValue(i)) => i,
        KindV::AttributeValue(AttributeValueError::InvalidCase(i)) => i,
        KindV::AttributeValue(AttributeValueError::MissingValue(i)) => i,
        KindV::AttributePattern(AttributePatternErrorV::InvalidName(i, _)) => i,
        KindV::AttributePattern(AttributePatternErrorV::ParseName(i)) => i,
        KindV::AttributePattern(AttributePatternErrorV::ParseValue(i)) => i,
        KindV::OrdinalPattern(OrdinalPatternError::Invalid(i)) => i,
        KindV::OrdinalPattern(OrdinalPatternError::InvalidStep(i)) => i,
        KindV::OrdinalPattern(OrdinalPatternError::InvalidOffset(i)) => i,
        KindV::OrdinalPattern(OrdinalPatternError::Unterminated(i)) => i,
        KindV::OrdinalPattern(OrdinalPatternError::EvenOrOdd(i)) => i,
        KindV::OrdinalPattern(OrdinalPatternError::MissingPlus(i)) => i,
        KindV::OrdinalPattern(OrdinalPatternError::MissingOffset(i)) => i,
        KindV::Parenthesized(ParenthesizedError::InvalidContent(i)) => i,
        KindV::Parenthesized(ParenthesizedError::InvalidEndDelimiter(i, _, _)) => i,
        KindV::Parenthesized(ParenthesizedError::MissingContent(i)) => i,
        KindV::Parenthesized(ParenthesizedError::MissingEndDelimiter(i, _)) => i,
        KindV::TagSelector(TagSelectorError::ParseFail(i)) => i,
        KindV::IdSelector(IdSelectorError::ParseFail(i)) => i,
        KindV::IdSelector(IdSelectorError::MissingId(i)) => i,
        KindV::ClassSelector(ClassSelectorError::ParseFail(i)) => i,
        KindV::ClassSelector(ClassSelectorError::MissingClass(i)) => i,
        KindV::AttributeSelector(AttributeSelectorError::ParseFail(i)) => i,
        KindV::AttributeSelector(AttributeSelectorError::EmptyBrackets(i)) => i,
        KindV::CompoundSelector(CompoundSelectorError::DuplicateId(i)) => i,
        KindV::CompoundSelector(CompoundSelectorError::ExpectedClass(i)) => i,
        KindV::CompoundSelector(CompoundSelectorError::ExpectedId(i)) => i,
        KindV::CompoundSelector(CompoundSelectorError::ExpectedAttribute(i)) => i,
        KindV::CompoundSelector(CompoundSelectorError::ExpectedPseudoClass(i)) => i,
        KindV::CompoundSelector(CompoundSelectorError::UnexpectedChar(i)) => i,
        KindV::CompoundSelector(CompoundSelectorError::ClassFail(i)) => i,
        KindV::CompoundSelector(CompoundSelectorError::IdFail(i)) => i,
        KindV::CompoundSelector(CompoundSelectorError::AttributeFail(i)) => i,
        KindV::CompoundSelector(CompoundSelectorError::PseudoClassFail(i)) => i,
        KindV::RelativeSelector(RelativeSelectorError::MissingSelector(i)) => i,
        KindV::RelativeSelector(RelativeSelectorError::SelectorFail(i)) => i,
        KindV::ComplexSelector(ComplexSelectorError::ParseFail(i)) => i,
        KindV::ComplexRelativeSelector(ComplexRelativeSelectorError::ParseFail(i)) => i,
        KindV::SelectorList(SelectorListError::ParseFail(i)) => i,
        KindV::SelectorList(SelectorListError::Unterminated(i)) => i,
        KindV::RelativeSelectorList(RelativeSelectorListError::ParseFail(i)) => i,
        KindV::RelativeSelectorList(RelativeSelectorListError::Unterminated(i)) => i,
        KindV::PseudoClassSelector(PseudoClassSelectorError::ParseFail(i)) => i,
        KindV::PseudoClassSelector(PseudoClassSelectorError::MissingKeyword(i)) => i,
        KindV::PseudoClassSelector(PseudoClassSelectorError::InvalidKeyword(i)) => i,
        KindV::PseudoClassSelector(PseudoClassSelectorError::ParseParameter(i)) => i,
        KindV::PseudoClassSelector(PseudoClassSelectorError::MissingParameter(i)) => i,
        KindV::PseudoClassSelector(PseudoClassSelectorError::EmptyParameter(i)) => i,
    }
}

/// The message of an error.
pub open spec fn kind_message(k: KindV) -> Seq<char> {
    match k {
        KindV::TextPattern(TextPatternErrorV::StartsWith(a0, a1)) => "Can't start with a '"@ + seq![a1] + "' at "@ + dec(a0 as nat),
        KindV::TextPattern(TextPatternErrorV::Exclusively(a0, a1)) => "Can't be exclusively any of : "@ + char_list_text(a1) + " at "@ + dec(a0 as nat),
        KindV::QuotedString(QuotedStringError::Empty(a0)) => "Empty quoted string at "@ + dec(a0 as nat),
        KindV::QuotedString(QuotedStringError::Unterminated(a0)) => "Unterminated quoted string at "@ + dec(a0 as nat),
        KindV::IntegerPattern(IntegerPatternErrorV::ParseFail(a0, a1)) => "Failed to parse integer at "@ + dec(a0 as nat) + ": "@ + a1,
        KindV::CaseIndicator(CaseIndicatorError::InvalidCaseIndicator(a0)) => "Invalid case indicator at "@ + dec(a0 as nat),
        KindV::CaseIndicator(CaseIndicatorError::MissingCaseIndicator(a0)) => "Missing case indicator at "@ + dec(a0 as nat),
        KindV::AttributeOperator(AttributeOperatorError::InvalidAttributeOperator(a0)) => "Invalid attribute operator at "@ + dec(a0 as nat),
        KindV::AttributeOperator(AttributeOperatorError::MissingEqualSign(a0)) => "Missing equal sign at "@ + dec(a0 as nat),
        KindV::AttributeValue(AttributeValueError::InvalidOperator(a0)) => "Invalid attribute operator at "@ + dec(a0 as nat),
        KindV::AttributeValue(AttributeValueError::InvalidValue(a0)) => "Invalid attribute value at "@ + dec(a0 as nat),
        KindV::AttributeValue(AttributeValueError::InvalidCase(a0)) => "Invalid case indicator at "@ + dec(a0 as nat),
        KindV::AttributeValue(AttributeValueError::MissingValue(a0)) => "Missing attribute value at "@ + dec(a0 as nat),
        KindV::AttributePattern(AttributePatternErrorV::InvalidName(a0, a1)) => "Invalid attribute name at "@ + dec(a0 as nat) + ": "@ + a1,
        KindV::AttributePattern(AttributePatternErrorV::ParseName(a0)) => "Failed to parse attribute name at "@ + dec(a0 as nat),
        KindV::AttributePattern(AttributePatternErrorV::ParseValue(a0)) => "Failed to parse attribute value at "@ + dec(a0 as nat),
        KindV::OrdinalPattern(OrdinalPatternError::Invalid(a0)) => "Invalid ordinal pattern at "@ + dec(a0 as nat),
        KindV::OrdinalPattern(OrdinalPatternError::InvalidStep(a0)) => "Invalid step at "@ + dec(a0 as nat),
        KindV::OrdinalPattern(OrdinalPatternError::InvalidOffset(a0)) => "Invalid offset at "@ + dec(a0 as nat),
        KindV::OrdinalPattern(OrdinalPatternError::Unterminated(a0)) => "Unterminated ordinal pattern at "@ + dec(a0 as nat),
        KindV::OrdinalPattern(OrdinalPatternError::EvenOrOdd(a0)) => "Expected 'odd' or 'even' at "@ + dec(a0 as nat),
        KindV::OrdinalPattern(OrdinalPatternError::MissingPlus(a0)) => "Missing plus sign at "@ + dec(a0 as nat),
        KindV::OrdinalPattern(OrdinalPatternError::MissingOffset(a0)) => "Missing offset at "@ + dec(a0 as nat),
        KindV::Parenthesized(ParenthesizedError::InvalidContent(a0)) => "Invalid content at "@ + dec(a0 as nat),
        KindV::Parenthesized(ParenthesizedError::InvalidEndDelimiter(a0, a1, a2)) => "Invalid end delimiter at "@ + dec(a0 as nat) + ": expected '"@ + seq![a1] + "', found '"@ + seq![a2] + "'"@,
        KindV::Parenthesized(ParenthesizedError::MissingContent(a0)) => "Missing content at "@ + dec(a0 as nat),
        KindV::Parenthesized(ParenthesizedError::MissingEndDelimiter(a0, a1)) => "Missing end delimiter '"@ + seq![a1] + "' at "@ + dec(a0 as nat),
        KindV::TagSelector(TagSelectorError::ParseFail(a0)) => "Failed to parse tag selector at "@ + dec(a0 as nat),
        KindV::IdSelector(IdSelectorError::ParseFail(a0)) => "Failed to parse id selector at "@ + dec(a0 as nat),
        KindV::IdSelector(IdSelectorError::MissingId(a0)) => "Missing id name at "@ + dec(a0 as nat),
        KindV::ClassSelector(ClassSelectorError::ParseFail(a0)) => "Failed to parse class selector at "@ + dec(a0 as nat),
        KindV::ClassSelector(ClassSelectorError::MissingClass(a0)) => "Missing class name at "@ + dec(a0 as nat),
        KindV::AttributeSelector(AttributeSelectorError::ParseFail(a0)) => "Failed to parse attribute selector at "@ + dec(a0 as nat),
        KindV::AttributeSelector(AttributeSelectorError::EmptyBrackets(a0)) => "Empty brackets at "@ + dec(a0 as nat),
        KindV::CompoundSelector(CompoundSelectorError::DuplicateId(a0)) => "Duplicate id selector at "@ + dec(a0 as nat),
        KindV::CompoundSelector(CompoundSelectorError::ExpectedClass(a0)) => "Expected class selector at "@ + dec(a0 as nat),
        KindV::CompoundSelector(CompoundSelectorError::ExpectedId(a0)) => "Expected id selector at "@ + dec(a0 as nat),
        KindV::CompoundSelector(CompoundSelectorError::ExpectedAttribute(a0)) => "Expected attribute selector at "@ + dec(a0 as nat),
        KindV::CompoundSelector(CompoundSelectorError::ExpectedPseudoClass(a0)) => "Expected pseudo-class selector at "@ + dec(a0 as nat),
        KindV::CompoundSelector(CompoundSelectorError::UnexpectedChar(a0)) => "Unexpected alphabetic character at "@ + dec(a0 as nat),
        KindV::CompoundSelector(CompoundSelectorError::ClassFail(a0)) => "Failed to parse class selector at "@ + dec(a0 as nat),
        KindV::CompoundSelector(CompoundSelectorError::IdFail(a0)) => "Failed to parse id selector at "@ + dec(a0 as nat),
        KindV::CompoundSelector(CompoundSelectorError::AttributeFail(a0)) => "Failed to parse attribute selector at "@ + dec(a0 as nat),
        KindV::CompoundSelector(CompoundSelectorError::PseudoClassFail(a0)) => "Failed to parse pseudo-class selector at "@ + dec(a0 as nat),
        KindV::RelativeSelector(RelativeSelectorError::MissingSelector(a0)) => "Missing relative selector at "@ + dec(a0 as nat),
        KindV::RelativeSelector(RelativeSelectorError::SelectorFail(a0)) => "Failed to parse relative selector at "@ + dec(a0 as nat),
        KindV::ComplexSelector(ComplexSelectorError::ParseFail(a0)) => "Failed to parse complex selector at "@ + dec(a0 as nat),
        KindV::ComplexRelativeSelector(ComplexRelativeSelectorError::ParseFail(a0)) => "Failed to parse complex relative selector at "@ + dec(a0 as nat),
        KindV::SelectorList(SelectorListError::ParseFail(a0)) => "Failed to parse selector list at "@ + dec(a0 as nat),
        KindV::SelectorList(SelectorListError::Unterminated(a0)) => "Unterminated selector list at "@ + dec(a0 as nat),
        KindV::RelativeSelectorList(RelativeSelectorListError::ParseFail(a0)) => "Failed to parse relative selector list at "@ + dec(a0 as nat),
        KindV::RelativeSelectorList(RelativeSelectorListError::Unterminated(a0)) => "Unterminated relative selector list at "@ + dec(a0 as nat),
        KindV::PseudoClassSelector(PseudoClassSelectorError::ParseFail(a0)) => "Failed to parse pseudo-class selector at "@ + dec(a0 as nat),
        KindV::PseudoClassSelector(PseudoClassSelectorError::MissingKeyword(a0)) => "Missing pseudo-class keyword at "@ + dec(a0 as nat),
        KindV::PseudoClassSelector(PseudoClassSelectorError::InvalidKeyword(a0)) => "Invalid pseudo-class keyword at "@ + dec(a0 as nat),
        KindV::PseudoClassSelector(PseudoClassSelectorError::ParseParameter(a0)) => "Failed to parse parameter at "@ + dec(a0 as nat),
        KindV::PseudoClassSelector(PseudoClassSelectorError::MissingParameter(a0)) => "Missing parameter at "@ + dec(a0 as nat),
        KindV::PseudoClassSelector(PseudoClassSelectorError::EmptyParameter(a0)) => "Empty parameter at "@ + dec(a0 as nat),
    }
}

impl TextPatternError {
    pub fn into_parse_error(self) -> (r: ParseError)
        ensures
            r@ == PErr::Parsing(KindV::TextPattern(self@)),
    {
        ParseError::Parsing(ErrorKind::TextPattern(self))
    }

    pub fn index(&self) -> (r: usize)
        ensures
            r == kind_index(KindV::TextPattern(self@)),
    {
        match self {
            TextPatternError::StartsWith(i, _) => *i,
            TextPatternError::Exclusively(i, _) => *i,
        }
    }

    pub fn push_message(&self, out: &mut Vec<char>)
        ensures
            final(out)@ == old(out)@ + kind_message(KindV::TextPattern(self@)),
    {
        match self {
            TextPatternError::StartsWith(a0, a1) => {
                push_str(out, "Can't start with a '");
                out.push(*a1);
                push_str(out, "' at ");
                push_usize(out, *a0);
            }
            TextPatternError::Exclusively(a0, a1) => {
                push_str(out, "Can't be exclusively any of : ");
                push_char_list(out, a1);
                push_str(out, " at ");
                push_usize(out, *a0);
            }
        }
    }

    pub fn to_string(&self) -> (r: String)
        ensures
            r@ == kind_message(KindV::TextPattern(self@)),
    {
        let mut v: Vec<char> = Vec::new();
        self.push_message(&mut v);
        string_from_chars(v.as_slice())
    }
}

impl QuotedStringError {
    pub fn into_parse_error(self) -> (r: ParseError)
        ensures
            r@ == PErr::Parsing(KindV::QuotedString(self)),
    {
        ParseError::Parsing(ErrorKind::QuotedString(self))
    }

    pub fn index(&self) -> (r: usize)
        ensures
            r == kind_index(KindV::QuotedString(*self)),
    {
        match self {
            QuotedStringError::Empty(i) => *i,
            QuotedStringError::Unterminated(i) => *i,
        }
    }

    pub fn push_message(&self, out: &mut Vec<char>)
        ensures
            final(out)@ == old(out)@ + kind_message(KindV::QuotedString(*self)),
    {
        match self {
            QuotedStringError::Empty(a0) => {
                push_str(out, "Empty quoted string at ");
                push_usize(out, *a0);
            }
            QuotedStringError::Unterminated(a0) => {
                push_str(out, "Unterminated quoted string at ");
                push_usize(out, *a0);
            }
        }
    }

    pub fn to_string(&self) -> (r: String)
        ensures
            r@ == kind_message(KindV::QuotedString(*self)),
    {
        let mut v: Vec<char> = Vec::new();
        self.push_message(&mut v);
        string_from_chars(v.as_slice())
    }
}

impl IntegerPatternError {
    pub fn into_parse_error(self) -> (r: ParseError)
        ensures
            r@ == PErr::Parsing(KindV::IntegerPattern(self@)),
    {
        ParseError::Parsing(ErrorKind::IntegerPattern(self))
    }

    pub fn index(&self) -> (r: usize)
        ensures
            r == kind_index(KindV::IntegerPattern(self@)),
    {
        match self {
            IntegerPatternError::ParseFail(i, _) => *i,
        }
    }

    pub fn push_message(&self, out: &mut Vec<char>)
        ensures
            final(out)@ == old(out)@ + kind_message(KindV::IntegerPattern(self@)),
    {
        match self {
            IntegerPatternError::ParseFail(a0, a1) => {
                push_str(out, "Failed to parse integer at ");
                push_usize(out, *a0);
                push_str(out, ": ");
                crate::text::push_string(out, a1);
            }
        }
    }

    pub fn to_string(&self) -> (r: String)
        ensures
            r@ == kind_message(KindV::IntegerPattern(self@)),
    {
        let mut v: Vec<char> = Vec::new();
        self.push_message(&mut v);
        string_from_chars(v.as_slice())
    }
}

impl CaseIndicatorError {
    pub fn into_parse_error(self) -> (r: ParseError)
        ensures
            r@ == PErr::Parsing(KindV::CaseIndicator(self)),
    {
        ParseError::Parsing(ErrorKind::CaseIndicator(self))
    }

    pub fn index(&self) -> (r: usize)
        ensures
            r == kind_index(KindV::CaseIndicator(*self)),
    {
        match self {
            CaseIndicatorError::InvalidCaseIndicator(i) => *i,
            CaseIndicatorError::MissingCaseIndicator(i) => *i,
        }
    }

    pub fn push_message(&self, out: &mut Vec<char>)
        ensures
            final(out)@ == old(out)@ + kind_message(KindV::CaseIndicator(*self)),
    {
        match self {
            CaseIndicatorError::InvalidCaseIndicator(a0) => {
                push_str(out, "Invalid case indicator at ");
                push_usize(out, *a0);
            }
            CaseIndicatorError::MissingCaseIndicator(a0) => {
                push_str(out, "Missing case indicator at ");
                push_usize(out, *a0);
            }
        }
    }

    pub fn to_string(&self) -> (r: String)
        ensures
            r@ == kind_message(KindV::CaseIndicator(*self)),
    {
        let mut v: Vec<char> = Vec::new();
        self.push_message(&mut v);
        string_from_chars(v.as_slice())
    }
}

impl AttributeOperatorError {
    pub fn into_parse_error(self) -> (r: ParseError)
        ensures
            r@ == PErr::Parsing(KindV::AttributeOperator(self)),
    {
        ParseError::Parsing(ErrorKind::AttributeOperator(self))
    }

    pub fn index(&self) -> (r: usize)
        ensures
            r == kind_index(KindV::AttributeOperator(*self)),
    {
        match self {
            AttributeOperatorError::InvalidAttributeOperator(i) => *i,
            AttributeOperatorError::MissingEqualSign(i) => *i,
        }
    }

    pub fn push_message(&self, out: &mut Vec<char>)
        ensures
            final(out)@ == old(out)@ + kind_message(KindV::AttributeOperator(*self)),
    {
        match self {
            AttributeOperatorError::InvalidAttributeOperator(a0) => {
                push_str(out, "Invalid attribute operator at ");
                push_usize(out, *a0);
            }
            AttributeOperatorError::MissingEqualSign(a0) => {
                push_str(out, "Missing equal sign at ");
                push_usize(out, *a0);
            }
        }
    }

    pub fn to_string(&self) -> (r: String)
        ensures
            r@ == kind_message(KindV::AttributeOperator(*self)),
    {
        let mut v: Vec<char> = Vec::new();
        self.push_message(&mut v);
        string_from_chars(v.as_slice())
    }
}

impl AttributeValueError {
    pub fn into_parse_error(self) -> (r: ParseError)
        ensures
            r@ == PErr::Parsing(KindV::AttributeValue(self)),
    {
        ParseError::Parsing(ErrorKind::AttributeValue(self))
    }

    pub fn index(&self) -> (r: usize)
        ensures
            r == kind_index(KindV::AttributeValue(*self)),
    {
        match self {
            AttributeValueError::InvalidOperator(i) => *i,
            AttributeValueError::InvalidValue(i) => *i,
            AttributeValueError::InvalidCase(i) => *i,
            AttributeValueError::MissingValue(i) => *i,
        }
    }

    pub fn push_message(&self, out: &mut Vec<char>)
        ensures
            final(out)@ == old(out)@ + kind_message(KindV::AttributeValue(*self)),
    {
        match self {
            AttributeValueError::InvalidOperator(a0) => {
                push_str(out, "Invalid attribute operator at ");
                push_usize(out, *a0);
            }
            AttributeValueError::InvalidValue(a0) => {
                push_str(out, "Invalid attribute value at ");
                push_usize(out, *a0);
            }
            AttributeValueError::InvalidCase(a0) => {
                push_str(out, "Invalid case indicator at ");
                push_usize(out, *a0);
            }
            AttributeValueError::MissingValue(a0) => {
                push_str(out, "Missing attribute value at ");
                push_usize(out, *a0);
            }
        }
    }

    pub fn to_string(&self) -> (r: String)
        ensures
            r@ == kind_message(KindV::AttributeValue(*self)),
    {
        let mut v: Vec<char> = Vec::new();
        self.push_message(&mut v);
        string_from_chars(v.as_slice())
    }
}

impl AttributePatternError {
    pub fn into_parse_error(self) -> (r: ParseError)
        ensures
            r@ == PErr::Parsing(KindV::AttributePattern(self@)),
    {
        ParseError::Parsing(ErrorKind::AttributePattern(self))
    }

    pub fn index(&self) -> (r: usize)
        ensures
            r == kind_index(KindV::AttributePattern(self@)),
    {
        match self {
            AttributePatternError::InvalidName(i, _) => *i,
            AttributePatternError::ParseName(i) => *i,
            AttributePatternError::ParseValue(i) => *i,
        }
    }

    pub fn push_message(&self, out: &mut Vec<char>)
        ensures
            final(out)@ == old(out)@ + kind_message(KindV::AttributePattern(self@)),
    {
        match self {
            AttributePatternError::InvalidName(a0, a1) => {
                push_str(out, "Invalid attribute name at ");
                push_usize(out, *a0);
                push_str(out, ": ");
                crate::text::push_string(out, a1);
            }
            AttributePatternError::ParseName(a0) => {
                push_str(out, "Failed to parse attribute name at ");
                push_usize(out, *a0);
            }
            AttributePatternError::ParseValue(a0) => {
                push_str(out, "Failed to parse attribute value at ");
                push_usize(out, *a0);
            }
        }
    }

    pub fn to_string(&self) -> (r: String)
        ensures
            r@ == kind_message(KindV::AttributePattern(self@)),
    {
        let mut v: Vec<char> = Vec::new();
        self.push_message(&mut v);
        string_from_chars(v.as_slice())
    }
}

impl OrdinalPatternError {
    pub fn into_parse_error(self) -> (r: ParseError)
        ensures
            r@ == PErr::Parsing(KindV::OrdinalPattern(self)),
    {
        ParseError::Parsing(ErrorKind::OrdinalPattern(self))
    }

    pub fn index(&self) -> (r: usize)
        ensures
            r == kind_index(KindV::OrdinalPattern(*self)),
    {
        match self {
            OrdinalPatternError::Invalid(i) => *i,
            OrdinalPatternError::InvalidStep(i) => *i,
            OrdinalPatternError::InvalidOffset(i) => *i,
            OrdinalPatternError::Unterminated(i) => *i,
            OrdinalPatternError::EvenOrOdd(i) => *i,
            OrdinalPatternError::MissingPlus(i) => *i,
            OrdinalPatternError::MissingOffset(i) => *i,
        }
    }

    pub fn push_message(&self, out: &mut Vec<char>)
        ensures
            final(out)@ == old(out)@ + kind_message(KindV::OrdinalPattern(*self)),
    {
        match self {
            OrdinalPatternError::Invalid(a0) => {
                push_str(out, "Invalid ordinal pattern at ");
                push_usize(out, *a0);
            }
            OrdinalPatternError::InvalidStep(a0) => {
                push_str(out, "Invalid step at ");
                push_usize(out, *a0);
            }
            OrdinalPatternError::InvalidOffset(a0) => {
                push_str(out, "Invalid offset at ");
                push_usize(out, *a0);
            }
            OrdinalPatternError::Unterminated(a0) => {
                push_str(out, "Unterminated ordinal pattern at ");
                push_usize(out, *a0);
            }
            OrdinalPatternError::EvenOrOdd(a0) => {
                push_str(out, "Expected 'odd' or 'even' at ");
                push_usize(out, *a0);
            }
            OrdinalPatternError::MissingPlus(a0) => {
                push_str(out, "Missing plus sign at ");
                push_usize(out, *a0);
            }
            OrdinalPatternError::MissingOffset(a0) => {
                push_str(out, "Missing offset at ");
                push_usize(out, *a0);
            }
        }
    }

    pub fn to_string(&self) -> (r: String)
        ensures
            r@ == kind_message(KindV::OrdinalPattern(*self)),
    {
        let mut v: Vec<char> = Vec::new();
        self.push_message(&mut v);
        string_from_chars(v.as_slice())
    }
}

impl ParenthesizedError {
    pub fn into_parse_error(self) -> (r: ParseError)
        ensures
            r@ == PErr::Parsing(KindV::Parenthesized(self)),
    {
        ParseError::Parsing(ErrorKind::Parenthesized(self))
    }

    pub fn index(&self) -> (r: usize)
        ensures
            r == kind_index(KindV::Parenthesized(*self)),
    {
        match self {
            ParenthesizedError::InvalidContent(i) => *i,
            ParenthesizedError::InvalidEndDelimiter(i, _, _) => *i,
            ParenthesizedError::MissingContent(i) => *i,
            ParenthesizedError::MissingEndDelimiter(i, _) => *i,
        }
    }

    pub fn push_message(&self, out: &mut Vec<char>)
        ensures
            final(out)@ == old(out)@ + kind_message(KindV::Parenthesized(*self)),
    {
        match self {
            ParenthesizedError::InvalidContent(a0) => {
                push_str(out, "Invalid content at ");
                push_usize(out, *a0);
            }
            ParenthesizedError::InvalidEndDelimiter(a0, a1, a2) => {
                push_str(out, "Invalid end delimiter at ");
                push_usize(out, *a0);
                push_str(out, ": expected '");
                out.push(*a1);
                push_str(out, "', found '");
                out.push(*a2);
                push_str(out, "'");
            }
            ParenthesizedError::MissingContent(a0) => {
                push_str(out, "Missing content at ");
                push_usize(out, *a0);
            }
            ParenthesizedError::MissingEndDelimiter(a0, a1) => {
                push_str(out, "Missing end delimiter '");
                out.push(*a1);
                push_str(out, "' at ");
                push_usize(out, *a0);
            }
        }
    }

    pub fn to_string(&self) -> (r: String)
        ensures
            r@ == kind_message(KindV::Parenthesized(*self)),
    {
        let mut v: Vec<char> = Vec::new();
        self.push_message(&mut v);
        string_from_chars(v.as_slice())
    }
}

impl TagSelectorError {
    pub fn into_parse_error(self) -> (r: ParseError)
        ensures
            r@ == PErr::Parsing(KindV::TagSelector(self)),
    {
        ParseError::Parsing(ErrorKind::TagSelector(self))
    }

    pub fn index(&self) -> (r: usize)
        ensures
            r == kind_index(KindV::TagSelector(*self)),
    {
        match self {
            TagSelectorError::ParseFail(i) => *i,
        }
    }

    pub fn push_message(&self, out: &mut Vec<char>)
        ensures
            final(out)@ == old(out)@ + kind_message(KindV::TagSelector(*self)),
    {
        match self {
            TagSelectorError::ParseFail(a0) => {
                push_str(out, "Failed to parse tag selector at ");
                push_usize(out, *a0);
            }
        }
    }

    pub fn to_string(&self) -> (r: String)
        ensures
            r@ == kind_message(KindV::TagSelector(*self)),
    {
        let mut v: Vec<char> = Vec::new();
        self.push_message(&mut v);
        string_from_chars(v.as_slice())
    }
}

impl IdSelectorError {
    pub fn into_parse_error(self) -> (r: ParseError)
        ensures
            r@ == PErr::Parsing(KindV::IdSelector(self)),
    {
        ParseError::Parsing(ErrorKind::IdSelector(self))
    }

    pub fn index(&self) -> (r: usize)
        ensures
            r == kind_index(KindV::IdSelector(*self)),
    {
        match self {
            IdSelectorError::ParseFail(i) => *i,
            IdSelectorError::MissingId(i) => *i,
        }
    }

    pub fn push_message(&self, out: &mut Vec<char>)
        ensures
            final(out)@ == old(out)@ + kind_message(KindV::IdSelector(*self)),
    {
        match self {
            IdSelectorError::ParseFail(a0) => {
                push_str(out, "Failed to parse id selector at ");
                push_usize(out, *a0);
            }
            IdSelectorError::MissingId(a0) => {
                push_str(out, "Missing id name at ");
                push_usize(out, *a0);
            }
        }
    }

    pub fn to_string(&self) -> (r: String)
        ensures
            r@ == kind_message(KindV::IdSelector(*self)),
    {
        let mut v: Vec<char> = Vec::new();
        self.push_message(&mut v);
        string_from_chars(v.as_slice())
    }
}

impl ClassSelectorError {
    pub fn into_parse_error(self) -> (r: ParseError)
        ensures
            r@ == PErr::Parsing(KindV::ClassSelector(self)),
    {
        ParseError::Parsing(ErrorKind::ClassSelector(self))
    }

    pub fn index(&self) -> (r: usize)
        ensures
            r == kind_index(KindV::ClassSelector(*self)),
    {
        match self {
            ClassSelectorError::ParseFail(i) => *i,
            ClassSelectorError::MissingClass(i) => *i,
        }
    }

    pub fn push_message(&self, out: &mut Vec<char>)
        ensures
            final(out)@ == old(out)@ + kind_message(KindV::ClassSelector(*self)),
    {
        match self {
            ClassSelectorError::ParseFail(a0) => {
                push_str(out, "Failed to parse class selector at ");
                push_usize(out, *a0);
            }
            ClassSelectorError::MissingClass(a0) => {
                push_str(out, "Missing class name at ");
                push_usize(out, *a0);
            }
        }
    }

    pub fn to_string(&self) -> (r: String)
        ensures
            r@ == kind_message(KindV::ClassSelector(*self)),
    {
        let mut v: Vec<char> = Vec::new();
        self.push_message(&mut v);
        string_from_chars(v.as_slice())
    }
}

impl AttributeSelectorError {
    pub fn into_parse_error(self) -> (r: ParseError)
        ensures
            r@ == PErr::Parsing(KindV::AttributeSelector(self)),
    {
        ParseError::Parsing(ErrorKind::AttributeSelector(self))
    }

    pub fn index(&self) -> (r: usize)
        ensures
            r == kind_index(KindV::AttributeSelector(*self)),
    {
        match self {
            AttributeSelectorError::ParseFail(i) => *i,
            AttributeSelectorError::EmptyBrackets(i) => *i,
        }
    }

    pub fn push_message(&self, out: &mut Vec<char>)
        ensures
            final(out)@ == old(out)@ + kind_message(KindV::AttributeSelector(*self)),
    {
        match self {
            AttributeSelectorError::ParseFail(a0) => {
                push_str(out, "Failed to parse attribute selector at ");
                push_usize(out, *a0);
            }
            AttributeSelectorError::EmptyBrackets(a0) => {
                push_str(out, "Empty brackets at ");
                push_usize(out, *a0);
            }
        }
    }

    pub fn to_string(&self) -> (r: String)
        ensures
            r@ == kind_message(KindV::AttributeSelector(*self)),
    {
        let mut v: Vec<char> = Vec::new();
        self.push_message(&mut v);
        string_from_chars(v.as_slice())
    }
}

impl CompoundSelectorError {
    pub fn into_parse_error(self) -> (r: ParseError)
        ensures
            r@ == PErr::Parsing(KindV::CompoundSelector(self)),
    {
        ParseError::Parsing(ErrorKind::CompoundSelector(self))
    }

    pub fn index(&self) -> (r: usize)
        ensures
            r == kind_index(KindV::CompoundSelector(*self)),
    {
        match self {
            CompoundSelectorError::DuplicateId(i) => *i,
            CompoundSelectorError::ExpectedClass(i) => *i,
            CompoundSelectorError::ExpectedId(i) => *i,
            CompoundSelectorError::ExpectedAttribute(i) => *i,
            CompoundSelectorError::ExpectedPseudoClass(i) => *i,
            CompoundSelectorError::UnexpectedChar(i) => *i,
            CompoundSelectorError::ClassFail(i) => *i,
            CompoundSelectorError::IdFail(i) => *i,
            CompoundSelectorError::AttributeFail(i) => *i,
            CompoundSelectorError::PseudoClassFail(i) => *i,
        }
    }

    pub fn push_message(&self, out: &mut Vec<char>)
        ensures
            final(out)@ == old(out)@ + kind_message(KindV::CompoundSelector(*self)),
    {
        match self {
            CompoundSelectorError::DuplicateId(a0) => {
                push_str(out, "Duplicate id selector at ");
                push_usize(out, *a0);
            }
            CompoundSelectorError::ExpectedClass(a0) => {
                push_str(out, "Expected class selector at ");
                push_usize(out, *a0);
            }
            CompoundSelectorError::ExpectedId(a0) => {
                push_str(out, "Expected id selector at ");
                push_usize(out, *a0);
            }
            CompoundSelectorError::ExpectedAttribute(a0) => {
                push_str(out, "Expected attribute selector at ");
                push_usize(out, *a0);
            }
            CompoundSelectorError::ExpectedPseudoClass(a0) => {
                push_str(out, "Expected pseudo-class selector at ");
                push_usize(out, *a0);
            }
            CompoundSelectorError::UnexpectedChar(a0) => {
                push_str(out, "Unexpected alphabetic character at ");
                push_usize(out, *a0);
            }
            CompoundSelectorError::ClassFail(a0) => {
                push_str(out, "Failed to parse class selector at ");
                push_usize(out, *a0);
            }
            CompoundSelectorError::IdFail(a0) => {
                push_str(out, "Failed to parse id selector at ");
                push_usize(out, *a0);
            }
            CompoundSelectorError::AttributeFail(a0) => {
                push_str(out, "Failed to parse attribute selector at ");
                push_usize(out, *a0);
            }
            CompoundSelectorError::PseudoClassFail(a0) => {
                push_str(out, "Failed to parse pseudo-class selector at ");
                push_usize(out, *a0);
            }
        }
    }

    pub fn to_string(&self) -> (r: String)
        ensures
            r@ == kind_message(KindV::CompoundSelector(*self)),
    {
        let mut v: Vec<char> = Vec::new();
        self.push_message(&mut v);
        string_from_chars(v.as_slice())
    }
}

impl RelativeSelectorError {
    pub fn into_parse_error(self) -> (r: ParseError)
        ensures
            r@ == PErr::Parsing(KindV::RelativeSelector(self)),
    {
        ParseError::Parsing(ErrorKind::RelativeSelector(self))
    }

    pub fn index(&self) -> (r: usize)
        ensures
            r == kind_index(KindV::RelativeSelector(*self)),
    {
        match self {
            RelativeSelectorError::MissingSelector(i) => *i,
            RelativeSelectorError::SelectorFail(i) => *i,
        }
    }

    pub fn push_message(&self, out: &mut Vec<char>)
        ensures
            final(out)@ == old(out)@ + kind_message(KindV::RelativeSelector(*self)),
    {
        match self {
            RelativeSelectorError::MissingSelector(a0) => {
                push_str(out, "Missing relative selector at ");
                push_usize(out, *a0);
            }
            RelativeSelectorError::SelectorFail(a0) => {
                push_str(out, "Failed to parse relative selector at ");
                push_usize(out, *a0);
            }
        }
    }

    pub fn to_string(&self) -> (r: String)
        ensures
            r@ == kind_message(KindV::RelativeSelector(*self)),
    {
        let mut v: Vec<char> = Vec::new();
        self.push_message(&mut v);
        string_from_chars(v.as_slice())
    }
}

impl ComplexSelectorError {
    pub fn into_parse_error(self) -> (r: ParseError)
        ensures
            r@ == PErr::Parsing(KindV::ComplexSelector(self)),
    {
        ParseError::Parsing(ErrorKind::ComplexSelector(self))
    }

    pub fn index(&self) -> (r: usize)
        ensures
            r == kind_index(KindV::ComplexSelector(*self)),
    {
        match self {
            ComplexSelectorError::ParseFail(i) => *i,
        }
    }

    pub fn push_message(&self, out: &mut Vec<char>)
        ensures
            final(out)@ == old(out)@ + kind_message(KindV::ComplexSelector(*self)),
    {
        match self {
            ComplexSelectorError::ParseFail(a0) => {
                push_str(out, "Failed to parse complex selector at ");
                push_usize(out, *a0);
            }
        }
    }

    pub fn to_string(&self) -> (r: String)
        ensures
            r@ == kind_message(KindV::ComplexSelector(*self)),
    {
        let mut v: Vec<char> = Vec::new();
        self.push_message(&mut v);
        string_from_chars(v.as_slice())
    }
}

impl ComplexRelativeSelectorError {
    pub fn into_parse_error(self) -> (r: ParseError)
        ensures
            r@ == PErr::Parsing(KindV::ComplexRelativeSelector(self)),
    {
        ParseError::Parsing(ErrorKind::ComplexRelativeSelector(self))
    }

    pub fn index(&self) -> (r: usize)
        ensures
            r == kind_index(KindV::ComplexRelativeSelector(*self)),
    {
        match self {
            ComplexRelativeSelectorError::ParseFail(i) => *i,
        }
    }

    pub fn push_message(&self, out: &mut Vec<char>)
        ensures
            final(out)@ == old(out)@ + kind_message(KindV::ComplexRelativeSelector(*self)),
    {
        match self {
            ComplexRelativeSelectorError::ParseFail(a0) => {
                push_str(out, "Failed to parse complex relative selector at ");
                push_usize(out, *a0);
            }
        }
    }

    pub fn to_string(&self) -> (r: String)
        ensures
            r@ == kind_message(KindV::ComplexRelativeSelector(*self)),
    {
        let mut v: Vec<char> = Vec::new();
        self.push_message(&mut v);
        string_from_chars(v.as_slice())
    }
}

impl SelectorListError {
    pub fn into_parse_error(self) -> (r: ParseError)
        ensures
            r@ == PErr::Parsing(KindV::SelectorList(self)),
    {
        ParseError::Parsing(ErrorKind::SelectorList(self))
    }

    pub fn index(&self) -> (r: usize)
        ensures
            r == kind_index(KindV::SelectorList(*self)),
    {
        match self {
            SelectorListError::ParseFail(i) => *i,
            SelectorListError::Unterminated(i) => *i,
        }
    }

    pub fn push_message(&self, out: &mut Vec<char>)
        ensures
            final(out)@ == old(out)@ + kind_message(KindV::SelectorList(*self)),
    {
        match self {
            SelectorListError::ParseFail(a0) => {
                push_str(out, "Failed to parse selector list at ");
                push_usize(out, *a0);
            }
            SelectorListError::Unterminated(a0) => {
                push_str(out, "Unterminated selector list at ");
                push_usize(out, *a0);
            }
        }
    }

    pub fn to_string(&self) -> (r: String)
        ensures
            r@ == kind_message(KindV::SelectorList(*self)),
    {
        let mut v: Vec<char> = Vec::new();
        self.push_message(&mut v);
        string_from_chars(v.as_slice())
    }
}

impl RelativeSelectorListError {
    pub fn into_parse_error(self) -> (r: ParseError)
        ensures
            r@ == PErr::Parsing(KindV::RelativeSelectorList(self)),
    {
        ParseError::Parsing(ErrorKind::RelativeSelectorList(self))
    }

    pub fn index(&self) -> (r: usize)
        ensures
            r == kind_index(KindV::RelativeSelectorList(*self)),
    {
        match self {
            RelativeSelectorListError::ParseFail(i) => *i,
            RelativeSelectorListError::Unterminated(i) => *i,
        }
    }

    pub fn push_message(&self, out: &mut Vec<char>)
        ensures
            final(out)@ == old(out)@ + kind_message(KindV::RelativeSelectorList(*self)),
    {
        match self {
            RelativeSelectorListError::ParseFail(a0) => {
                push_str(out, "Failed to parse relative selector list at ");
                push_usize(out, *a0);
            }
            RelativeSelectorListError::Unterminated(a0) => {
                push_str(out, "Unterminated relative selector list at ");
                push_usize(out, *a0);
            }
        }
    }

    pub fn to_string(&self) -> (r: String)
        ensures
            r@ == kind_message(KindV::RelativeSelectorList(*self)),
    {
        let mut v: Vec<char> = Vec::new();
        self.push_message(&mut v);
        string_from_chars(v.as_slice())
    }
}

impl PseudoClassSelectorError {
    pub fn into_parse_error(self) -> (r: ParseError)
        ensures
            r@ == PErr::Parsing(KindV::PseudoClassSelector(self)),
    {
        ParseError::Parsing(ErrorKind::PseudoClassSelector(self))
    }

    pub fn index(&self) -> (r: usize)
        ensures
            r == kind_index(KindV::PseudoClassSelector(*self)),
    {
        match self {
            PseudoClassSelectorError::ParseFail(i) => *i,
            PseudoClassSelectorError::MissingKeyword(i) => *i,
            PseudoClassSelectorError::InvalidKeyword(i) => *i,
            PseudoClassSelectorError::ParseParameter(i) => *i,
            PseudoClassSelectorError::MissingParameter(i) => *i,
            PseudoClassSelectorError::EmptyParameter(i) => *i,
        }
    }

    pub fn push_message(&self, out: &mut Vec<char>)
        ensures
            final(out)@ == old(out)@ + kind_message(KindV::PseudoClassSelector(*self)),
    {
        match self {
            PseudoClassSelectorError::ParseFail(a0) => {
                push_str(out, "Failed to parse pseudo-class selector at ");
                push_usize(out, *a0);
            }
            PseudoClassSelectorError::MissingKeyword(a0) => {
                push_str(out, "Missing pseudo-class keyword at ");
                push_usize(out, *a0);
            }
            PseudoClassSelectorError::InvalidKeyword(a0) => {
                push_str(out, "Invalid pseudo-class keyword at ");
                push_usize(out, *a0);
            }
            PseudoClassSelectorError::ParseParameter(a0) => {
                push_str(out, "Failed to parse parameter at ");
                push_usize(out, *a0);
            }
            PseudoClassSelectorError::MissingParameter(a0) => {
                push_str(out, "Missing parameter at ");
                push_usize(out, *a0);
            }
            PseudoClassSelectorError::EmptyParameter(a0) => {
                push_str(out, "Empty parameter at ");
                push_usize(out, *a0);
            }
        }
    }

    pub fn to_string(&self) -> (r: String)
        ensures
            r@ == kind_message(KindV::PseudoClassSelector(*self)),
    {
        let mut v: Vec<char> = Vec::new();
        self.push_message(&mut v);
        string_from_chars(v.as_slice())
    }
}

impl ErrorKind {
    pub fn index(&self) -> (r: usize)
        ensures
            r == kind_index(self@),
    {
        match self {
            ErrorKind::TextPattern(e) => e.index(),
            ErrorKind::QuotedString(e) => e.index(),
            ErrorKind::IntegerPattern(e) => e.index(),
            ErrorKind::CaseIndicator(e) => e.index(),
            ErrorKind::AttributeOperator(e) => e.index(),
            ErrorKind::AttributeValue(e) => e.index(),
            ErrorKind::AttributePattern(e) => e.index(),
            ErrorKind::OrdinalPattern(e) => e.index(),
            ErrorKind::Parenthesized(e) => e.index(),
            ErrorKind::TagSelector(e) => e.index(),
            ErrorKind::IdSelector(e) => e.index(),
            ErrorKind::ClassSelector(e) => e.index(),
            ErrorKind::AttributeSelector(e) => e.index(),
            ErrorKind::CompoundSelector(e) => e.index(),
            ErrorKind::RelativeSelector(e) => e.index(),
            ErrorKind::ComplexSelector(e) => e.index(),
            ErrorKind::ComplexRelativeSelector(e) => e.index(),
            ErrorKind::SelectorList(e) => e.index(),
            ErrorKind::RelativeSelectorList(e) => e.index(),
            ErrorKind::PseudoClassSelector(e) => e.index(),
        }
    }

    pub fn push_message(&self, out: &mut Vec<char>)
        ensures
            final(out)@ == old(out)@ + kind_message(self@),
    {
        match self {
            ErrorKind::TextPattern(e) => e.push_message(out),
            ErrorKind::QuotedString(e) => e.push_message(out),
            ErrorKind::IntegerPattern(e) => e.push_message(out),
            ErrorKind::CaseIndicator(e) => e.push_message(out),
            ErrorKind::AttributeOperator(e) => e.push_message(out),
            ErrorKind::AttributeValue(e) => e.push_message(out),
            ErrorKind::AttributePattern(e) => e.push_message(out),
            ErrorKind::OrdinalPattern(e) => e.push_message(out),
            ErrorKind::Parenthesized(e) => e.push_message(out),
            ErrorKind::TagSelector(e) => e.push_message(out),
            ErrorKind::IdSelector(e) => e.push_message(out),
            ErrorKind::ClassSelector(e) => e.push_message(out),
            ErrorKind::AttributeSelector(e) => e.push_message(out),
            ErrorKind::CompoundSelector(e) => e.push_message(out),
            ErrorKind::RelativeSelector(e) => e.push_message(out),
            ErrorKind::ComplexSelector(e) => e.push_message(out),
            ErrorKind::ComplexRelativeSelector(e) => e.push_message(out),
            ErrorKind::SelectorList(e) => e.push_message(out),
            ErrorKind::RelativeSelectorList(e) => e.push_message(out),
            ErrorKind::PseudoClassSelector(e) => e.push_message(out),
        }
    }
}

/// The plain-value form of [`ParseError`].
pub enum PErr {
    Parsing(KindV),
    Context(KindV, Box<PErr>),
    EmptySelector,
}

/// Wrap an error with the rule that was being parsed when it happened.
pub open spec fn ctx<T>(r: Result<T, PErr>, k: KindV) -> Result<T, PErr> {
    match r {
        Ok(v) => Ok(v),
        Err(e) => Err(PErr::Context(k, Box::new(e))),
    }
}

/// `inner -> outer` chains of error messages, outermost first.
pub open spec fn perr_message(e: PErr) -> Seq<char>
    decreases e,
{
    match e {
        PErr::Parsing(k) => kind_message(k),
        PErr::Context(k, inner) => kind_message(k) + " -> "@ + perr_message(*inner),
        PErr::EmptySelector => "No selector found"@,
    }
}

/// An error of the selector parser: a failed rule, possibly inside the rules that were
/// being parsed around it.
#[derive(Debug)]
pub enum ParseError {
    Parsing(ErrorKind),
    Context(ErrorKind, Box<ParseError>),
    EmptySelector,
}

impl View for ParseError {
    type V = PErr;

    open spec fn view(&self) -> PErr
        decreases self,
    {
        match self {
            ParseError::Parsing(k) => PErr::Parsing(k@),
            ParseError::Context(k, inner) => PErr::Context(k@, Box::new((**inner).view())),
            ParseError::EmptySelector => PErr::EmptySelector,
        }
    }
}

impl ParseError {
    pub fn new(error: ErrorKind) -> (r: ParseError)
        ensures
            r@ == PErr::Parsing(error@),
    {
        ParseError::Parsing(error)
    }

    pub fn context(self, context: ErrorKind) -> (r: ParseError)
        ensures
            r@ == PErr::Context(context@, Box::new(self@)),
    {
        ParseError::Context(context, Box::new(self))
    }

    pub fn push_message(&self, out: &mut Vec<char>)
        ensures
            final(out)@ == old(out)@ + perr_message(self@),
        decreases self,
    {
        match self {
            ParseError::Parsing(k) => k.push_message(out),
            ParseError::Context(k, inner) => {
                k.push_message(out);
                push_str(out, " -> ");
                inner.push_message(out);
            }
            ParseError::EmptySelector => push_str(out, "No selector found"),
        }
    }

    pub fn to_string(&self) -> (r: String)
        ensures
            r@ == perr_message(self@),
    {
        let mut v: Vec<char> = Vec::new();
        self.push_message(&mut v);
        string_from_chars(v.as_slice())
    }
}

/// Wrap the error of a failed parse with the rule around it; a success passes unchanged.
pub fn context<T>(r: Result<T, ParseError>, k: ErrorKind) -> (out: Result<T, ParseError>)
    ensures
        match r {
            Ok(v) => out == Ok::<T, ParseError>(v),
            Err(e) => out is Err && out->Err_0@ == PErr::Context(k@, Box::new(e@)),
        },
{
    match r {
        Ok(v) => Ok(v),
        Err(e) => Err(ParseError::Context(k, Box::new(e))),
    }
}

} // verus!
