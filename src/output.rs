//! The status-bar output record, themes, and the icon settings.
use vstd::prelude::*;

verus! {

/// One status-bar record: the text, and optionally a tooltip, a CSS class and a
/// percentage of at most 100.
#[derive(Debug, Clone, PartialEq, Eq)]
pub struct WaybarOutput {
    pub text: String,
    pub tooltip: Option<String>,
    pub class: Option<String>,
    pub percentage: Option<u8>,
}

/// The view of an optional string.
pub open spec fn opt_view(o: Option<String>) -> Option<Seq<char>> {
    match o {
        Some(s) => Some(s@),
        None => None,
    }
}

impl WaybarOutput {
    /// A record with only its text.
    pub fn new(text: String) -> (r: Self)
        ensures
            r.text == text,
            r.tooltip is None,
            r.class is None,
            r.percentage is None,
    {
        WaybarOutput { text, tooltip: None, class: None, percentage: None }
    }

    /// A record with only its text, copied from `text`.
    pub fn from_str(text: &str) -> (r: Self)
        ensures
            r.text@ == text@,
            r.tooltip is None,
            r.class is None,
            r.percentage is None,
    {
        Self::new(String::from_str(text))
    }

    /// The record with its tooltip set.
    pub fn with_tooltip(self, tooltip: &str) -> (r: Self)
        ensures
            r.text == self.text,
            opt_view(r.tooltip) == Some(tooltip@),
            r.class == self.class,
            r.percentage == self.percentage,
    {
        let mut s = self;
        s.tooltip = Some(String::from_str(tooltip));
        s
    }

    /// The record with its class set.
    pub fn with_class(self, class: &str) -> (r: Self)
        ensures
            r.text == self.text,
            r.tooltip == self.tooltip,
            opt_view(r.class) == Some(class@),
            r.percentage == self.percentage,
    {
        let mut s = self;
        s.class = Some(String::from_str(class));
        s
    }

    /// The record with its percentage set.
    pub fn with_percentage(self, percentage: u8) -> (r: Self)
        requires
            percentage <= 100,
        ensures
            r.text == self.text,
            r.tooltip == self.tooltip,
            r.class == self.class,
            r.percentage == Some(percentage),
    {
        let mut s = self;
        s.percentage = Some(percentage);
        s
    }

    /// Sets the tooltip.
    pub fn set_tooltip(&mut self, tooltip: &str)
        ensures
            final(self).text == old(self).text,
            opt_view(final(self).tooltip) == Some(tooltip@),
            final(self).class == old(self).class,
            final(self).percentage == old(self).percentage,
    {
        self.tooltip = Some(String::from_str(tooltip));
    }

    /// Sets the class.
    pub fn set_class(&mut self, class: &str)
        ensures
            final(self).text == old(self).text,
            final(self).tooltip == old(self).tooltip,
            opt_view(final(self).class) == Some(class@),
            final(self).percentage == old(self).percentage,
    {
        self.class = Some(String::from_str(class));
    }

    /// Sets the percentage.
    pub fn set_percentage(&mut self, percentage: u8)
        requires
            percentage <= 100,
        ensures
            final(self).text == old(self).text,
            final(self).tooltip == old(self).tooltip,
            final(self).class == old(self).class,
            final(self).percentage == Some(percentage),
    {
        self.percentage = Some(percentage);
    }
}

/// CSS class names for the states a sensor reports.
#[derive(Debug, Clone, PartialEq, Eq)]
pub struct Theme {
    pub normal: String,
    pub warning: String,
    pub critical: String,
    pub good: String,
    pub unknown: String,
}

impl Theme {
    /// Whether the theme holds the default class names.
    pub open spec fn is_default(&self) -> bool {
        &&& self.normal@ == "normal"@
        &&& self.warning@ == "warning"@
        &&& self.critical@ == "critical"@
        &&& self.good@ == "good"@
        &&& self.unknown@ == "unknown"@
    }

    /// The default theme.
    pub fn new() -> (r: Self)
        ensures
            r.is_default(),
    {
        Theme {
            normal: String::from_str("normal"),
            warning: String::from_str("warning"),
            critical: String::from_str("critical"),
            good: String::from_str("good"),
            unknown: String::from_str("unknown"),
        }
    }

    /// The theme with another class for the normal state.
    pub fn with_normal(self, class: &str) -> (r: Self)
        ensures
            r.normal@ == class@,
            r.warning == self.warning,
            r.critical == self.critical,
            r.good == self.good,
            r.unknown == self.unknown,
    {
        let mut t = self;
        t.normal = String::from_str(class);
        t
    }

    /// The theme with another class for the warning state.
    pub fn with_warning(self, class: &str) -> (r: Self)
        ensures
            r.normal == self.normal,
            r.warning@ == class@,
            r.critical == self.critical,
            r.good == self.good,
            r.unknown == self.unknown,
    {
        let mut t = self;
        t.warning = String::from_str(class);
        t
    }

    /// The theme with another class for the critical state.
    pub fn with_critical(self, class: &str) -> (r: Self)
        ensures
            r.normal == self.normal,
            r.warning == self.warning,
            r.critical@ == class@,
            r.good == self.good,
            r.unknown == self.unknown,
    {
        let mut t = self;
        t.critical = String::from_str(class);
        t
    }

    /// The theme with another class for the good state.
    pub fn with_good(self, class: &str) -> (r: Self)
        ensures
            r.normal == self.normal,
            r.warning == self.warning,
            r.critical == self.critical,
            r.good@ == class@,
            r.unknown == self.unknown,
    {
        let mut t = self;
        t.good = String::from_str(class);
        t
    }

    /// The theme with another class for the unknown state.
    pub fn with_unknown(self, class: &str) -> (r: Self)
        ensures
            r.normal == self.normal,
            r.warning == self.warning,
            r.critical == self.critical,
            r.good == self.good,
            r.unknown@ == class@,
    {
        let mut t = self;
        t.unknown = String::from_str(class);
        t
    }

    /// The class for a reading compared with two thresholds: critical at or above
    /// `critical_threshold`, warning at or above `warning_threshold`, else normal.
    pub fn class_for_levels(&self, value: u64, warning_threshold: u64, critical_threshold: u64) -> (r: &String)
        ensures
            *r == if value >= critical_threshold {
                self.critical
            } else if value >= warning_threshold {
                self.warning
            } else {
                self.normal
            },
    {
        if value >= critical_threshold {
            &self.critical
        } else if value >= warning_threshold {
            &self.warning
        } else {
            &self.normal
        }
    }
}

impl Default for Theme {
    fn default() -> (r: Self)
        ensures
            r.is_default(),
    {
        Theme::new()
    }
}

/// `c` and `k` are the same letter up to ASCII case, where `k` is lower case.
pub open spec fn same_ignoring_case(c: char, k: char) -> bool {
    c == k || ('a' <= k <= 'z' && c as u32 + 32 == k as u32)
}

/// `s` spells the lower-case keyword `kw` up to ASCII case.
pub open spec fn spells(s: Seq<char>, kw: Seq<char>) -> bool {
    s.len() == kw.len() && forall|i: int| 0 <= i < s.len() ==> same_ignoring_case(s[i], kw[i])
}

/// Whether `s` spells the lower-case keyword `kw` up to ASCII case.
pub fn spells_keyword(s: &str, kw: &str) -> (r: bool)
    ensures
        r == spells(s@, kw@),
{
    let n = s.unicode_len();
    if n != kw.unicode_len() {
        return false;
    }
    let mut i: usize = 0;
    while i < n
        invariant
            n == s@.len(),
            n == kw@.len(),
            i <= n,
            forall|j: int| 0 <= j < i ==> same_ignoring_case(s@[j], kw@[j]),
        decreases n - i,
    {
        let c = s.get_char(i);
        let k = kw.get_char(i);
        if !(c == k || ('a' <= k && k <= 'z' && c as u32 + 32 == k as u32)) {
            return false;
        }
        i = i + 1;
    }
    true
}

/// Whether icons are drawn.
#[derive(Debug, Clone, Copy, PartialEq, Eq, Hash, Structural)]
pub enum IconStyle {
    /// Nerd Font icons.
    NerdFont,
    /// Text only.
    Plain,
}

/// The rejected input of an icon style.
#[derive(Debug, Clone, PartialEq, Eq)]
pub struct IconStyleParseError {
    pub input: String,
}

impl IconStyleParseError {
    /// The options that the parser accepts.
    pub fn valid_options(&self) -> (r: Vec<String>)
        ensures
            r@.len() == 2,
            r@[0]@ == "nerdfont"@,
            r@[1]@ == "none"@,
    {
        let mut v: Vec<String> = Vec::new();
        v.push(String::from_str("nerdfont"));
        v.push(String::from_str("none"));
        v
    }
}

impl IconStyle {
    /// The style that `s` names, up to ASCII case: `nerdfont`, `nerd` or `nf`; or
    /// `none`, `no` or the empty text for plain text.
    pub open spec fn spec_parse(s: Seq<char>) -> Option<IconStyle> {
        if spells(s, "nerdfont"@) || spells(s, "nerd"@) || spells(s, "nf"@) {
            Some(IconStyle::NerdFont)
        } else if spells(s, "none"@) || spells(s, "no"@) || spells(s, ""@) {
            Some(IconStyle::Plain)
        } else {
            None
        }
    }

    /// Parses a style name, up to ASCII case.
    pub fn parse_name(s: &str) -> (r: Result<IconStyle, IconStyleParseError>)
        ensures
            match IconStyle::spec_parse(s@) {
                Some(st) => r == Ok::<IconStyle, IconStyleParseError>(st),
                None => r matches Err(e) && e.input@ == s@,
            },
    {
        if spells_keyword(s, "nerdfont") || spells_keyword(s, "nerd") || spells_keyword(s, "nf") {
            Ok(IconStyle::NerdFont)
        } else if spells_keyword(s, "none") || spells_keyword(s, "no") || spells_keyword(s, "") {
            Ok(IconStyle::Plain)
        } else {
            Err(IconStyleParseError { input: String::from_str(s) })
        }
    }

    /// The style's name.
    pub fn name(&self) -> (r: &'static str)
        ensures
            r@ == match self {
                IconStyle::NerdFont => "nerdfont"@,
                IconStyle::Plain => "none"@,
            },
    {
        match self {
            IconStyle::NerdFont => "nerdfont",
            IconStyle::Plain => "none",
        }
    }
}

impl Default for IconStyle {
    fn default() -> (r: Self)
        ensures
            r == IconStyle::Plain,
    {
        IconStyle::Plain
    }
}

impl std::str::FromStr for IconStyle {
    type Err = IconStyleParseError;

    fn from_str(s: &str) -> Result<IconStyle, IconStyleParseError> {
        IconStyle::parse_name(s)
    }
}

/// Where the icon stands relative to the value.
#[derive(Debug, Clone, Copy, PartialEq, Eq, Hash, Structural)]
pub enum IconPosition {
    Before,
    After,
}

/// The rejected input of an icon position.
#[derive(Debug, Clone, PartialEq, Eq)]
pub struct IconPositionParseError {
    pub input: String,
}

impl IconPositionParseError {
    /// The options that the parser accepts.
    pub fn valid_options(&self) -> (r: Vec<String>)
        ensures
            r@.len() == 2,
            r@[0]@ == "before"@,
            r@[1]@ == "after"@,
    {
        let mut v: Vec<String> = Vec::new();
        v.push(String::from_str("before"));
        v.push(String::from_str("after"));
        v
    }
}

impl IconPosition {
    /// The position that `s` names, up to ASCII case: `before`, `pre` or `left`; or
    /// `after`, `post` or `right`.
    pub open spec fn spec_parse(s: Seq<char>) -> Option<IconPosition> {
        if spells(s, "before"@) || spells(s, "pre"@) || spells(s, "left"@) {
            Some(IconPosition::Before)
        } else if spells(s, "after"@) || spells(s, "post"@) || spells(s, "right"@) {
            Some(IconPosition::After)
        } else {
            None
        }
    }

    /// Parses a position name, up to ASCII case.
    pub fn parse_name(s: &str) -> (r: Result<IconPosition, IconPositionParseError>)
        ensures
            match IconPosition::spec_parse(s@) {
                Some(p) => r == Ok::<IconPosition, IconPositionParseError>(p),
                None => r matches Err(e) && e.input@ == s@,
            },
    {
        if spells_keyword(s, "before") || spells_keyword(s, "pre") || spells_keyword(s, "left") {
            Ok(IconPosition::Before)
        } else if spells_keyword(s, "after") || spells_keyword(s, "post") || spells_keyword(
            s,
            "right",
        ) {
            Ok(IconPosition::After)
        } else {
            Err(IconPositionParseError { input: String::from_str(s) })
        }
    }

    /// The position's name.
    pub fn name(&self) -> (r: &'static str)
        ensures
            r@ == match self {
                IconPosition::Before => "before"@,
                IconPosition::After => "after"@,
            },
    {
        match self {
            IconPosition::Before => "before",
            IconPosition::After => "after",
        }
    }
}

impl Default for IconPosition {
    fn default() -> (r: Self)
        ensures
            r == IconPosition::Before,
    {
        IconPosition::Before
    }
}

impl std::str::FromStr for IconPosition {
    type Err = IconPositionParseError;

    fn from_str(s: &str) -> Result<IconPosition, IconPositionParseError> {
        IconPosition::parse_name(s)
    }
}

} // verus!
