//! Path templates. A template is cut at its slashes; a segment in braces is
//! a placeholder for a path parameter, every other segment stands for
//! itself.

use vstd::prelude::*;
use vstd::string::*;
use crate::text::{join, lemma_split_join, split, split_text};

verus! {

/// One segment of a path template.
#[derive(Debug, Clone, PartialEq, Eq)]
pub enum Segment {
    Literal(String),
    Parameter(String),
}

/// A [`Segment`] as contracts speak of it.
pub enum SegmentView {
    Literal(Seq<char>),
    Parameter(Seq<char>),
}

impl View for Segment {
    type V = SegmentView;

    open spec fn view(&self) -> SegmentView {
        match self {
            Segment::Literal(s) => SegmentView::Literal(s@),
            Segment::Parameter(s) => SegmentView::Parameter(s@),
        }
    }
}

/// A path template, cut into its segments.
#[derive(Debug, Clone, PartialEq, Eq)]
pub struct RoutePath {
    pub segments: Vec<Segment>,
}

impl View for RoutePath {
    type V = Seq<SegmentView>;

    open spec fn view(&self) -> Seq<SegmentView> {
        Seq::new(self.segments@.len(), |i: int| self.segments@[i]@)
    }
}

/// The segment that a part of a template stands for: a placeholder where the
/// part is a name in braces.
pub open spec fn segment_of(part: Seq<char>) -> SegmentView {
    if part.len() >= 2 && part[0] == '{' && part.last() == '}' {
        SegmentView::Parameter(part.subrange(1, part.len() - 1))
    } else {
        SegmentView::Literal(part)
    }
}

/// The segments of a template.
pub open spec fn parse_template(path: Seq<char>) -> Seq<SegmentView> {
    split(path, '/').map_values(|part: Seq<char>| segment_of(part))
}

/// The names of the placeholders among the segments, from left to right.
pub open spec fn placeholders(segments: Seq<SegmentView>) -> Seq<Seq<char>>
    decreases segments.len(),
{
    if segments.len() == 0 {
        Seq::empty()
    } else {
        match segments.last() {
            SegmentView::Parameter(name) => placeholders(segments.drop_last()).push(name),
            SegmentView::Literal(_) => placeholders(segments.drop_last()),
        }
    }
}

/// A segment as it is written in a template.
pub open spec fn segment_text(segment: SegmentView) -> Seq<char> {
    match segment {
        SegmentView::Literal(text) => text,
        SegmentView::Parameter(name) => seq!['{'] + name + seq!['}'],
    }
}

/// A segment as it is written in a format string: a placeholder is an empty
/// pair of braces, to be filled by position.
pub open spec fn segment_format(segment: SegmentView) -> Seq<char> {
    match segment {
        SegmentView::Literal(text) => text,
        SegmentView::Parameter(_) => "{}"@,
    }
}

/// The first `n` segments as a format string, with a slash between them.
pub open spec fn format_text(segments: Seq<SegmentView>, n: nat) -> Seq<char>
    decreases n,
{
    if n == 0 || n > segments.len() {
        Seq::empty()
    } else if n == 1 {
        segment_format(segments[0])
    } else {
        format_text(segments, (n - 1) as nat) + "/"@ + segment_format(segments[n - 1])
    }
}

/// The segments as the template they were cut from.
pub open spec fn template_text(segments: Seq<SegmentView>) -> Seq<char> {
    join(segments.map_values(|s: SegmentView| segment_text(s)), '/')
}

/// Cutting a template loses nothing: the segments, written out with slashes
/// between them, are the template.
pub proof fn lemma_template_round_trip(path: Seq<char>)
    ensures
        template_text(parse_template(path)) == path,
{
    let parts = split(path, '/');
    let written = parse_template(path).map_values(|s: SegmentView| segment_text(s));
    lemma_split_join(path, '/');
    assert(written =~= parts) by {
        assert forall|i: int| 0 <= i < parts.len() implies written[i] == parts[i] by {
            let part = parts[i];
            if part.len() >= 2 && part[0] == '{' && part.last() == '}' {
                assert(seq!['{'] + part.subrange(1, part.len() - 1) + seq!['}'] =~= part);
            }
        }
    }
}

impl RoutePath {
    /// Cuts a path template into its segments.
    pub fn analyse(path: &str) -> (route_path: RoutePath)
        ensures
            route_path@ == parse_template(path@),
    {
        let parts = split_text(path, '/');
        let mut segments: Vec<Segment> = Vec::new();
        let mut i: usize = 0;
        while i < parts.len()
            invariant
                i <= parts.len(),
                segments@.len() == i,
                parts.deep_view() == split(path@, '/'),
                forall|j: int| 0 <= j < i ==> (#[trigger] segments@[j])@ == segment_of(parts@[j]@),
            decreases parts.len() - i,
        {
            let part = parts[i].as_str();
            let len = part.unicode_len();
            let segment = if len >= 2 && part.get_char(0) == '{' && part.get_char(len - 1) == '}' {
                Segment::Parameter(String::from_str(part.substring_char(1, len - 1)))
            } else {
                Segment::Literal(String::from_str(part))
            };
            segments.push(segment);
            i += 1;
        }
        let route_path = RoutePath { segments };
        proof {
            assert(parts.deep_view().len() == parts@.len());
            assert forall|j: int| 0 <= j < parts@.len() implies route_path@[j] == parse_template(
                path@,
            )[j] by {
                assert(parts.deep_view()[j] == parts@[j]@);
            }
            assert(route_path@ =~= parse_template(path@));
        }
        route_path
    }

    /// The template that the segments were cut from.
    pub fn to_string(&self) -> (template: String)
        ensures
            template@ == template_text(self@),
    {
        let ghost parts = self@.map_values(|s: SegmentView| segment_text(s));
        let mut template = String::new();
        let mut i: usize = 0;
        assert(parts.take(0) =~= Seq::<Seq<char>>::empty());
        while i < self.segments.len()
            invariant
                i <= self.segments.len(),
                parts == self@.map_values(|s: SegmentView| segment_text(s)),
                template@ == join(parts.take(i as int), '/'),
            decreases self.segments.len() - i,
        {
            let ghost before = template@;
            proof {
                reveal_strlit("/");
                reveal_strlit("{");
                reveal_strlit("}");
                let upto = parts.take(i as int + 1);
                assert(upto.drop_last() =~= parts.take(i as int));
                assert(upto.last() == segment_text(self.segments@[i as int]@));
                assert("/"@ =~= seq!['/']);
                assert("{"@ =~= seq!['{']);
                assert("}"@ =~= seq!['}']);
            }
            if i > 0 {
                template.append("/");
                assert(template@ =~= before.push('/'));
            }
            let written = match &self.segments[i] {
                Segment::Literal(text) => text.clone(),
                Segment::Parameter(name) => {
                    let mut written = String::from_str("{");
                    written.append(name.as_str());
                    written.append("}");
                    written
                },
            };
            template.append(written.as_str());
            proof {
                if i == 0 {
                    assert(template@ =~= written@);
                }
            }
            i += 1;
        }
        assert(parts.take(self.segments@.len() as int) =~= parts);
        template
    }

    /// The names of the placeholders, from left to right.
    pub fn path_args(&self) -> (names: Vec<String>)
        ensures
            names.deep_view() == placeholders(self@),
    {
        let mut names: Vec<String> = Vec::new();
        let mut i: usize = 0;
        assert(self@.take(0) =~= Seq::<SegmentView>::empty());
        assert(names.deep_view() =~= placeholders(self@.take(0)));
        while i < self.segments.len()
            invariant
                i <= self.segments.len(),
                names.deep_view() == placeholders(self@.take(i as int)),
            decreases self.segments.len() - i,
        {
            let ghost before = names.deep_view();
            proof {
                let upto = self@.take(i as int + 1);
                assert(upto.drop_last() =~= self@.take(i as int));
                assert(upto.last() == self.segments@[i as int]@);
            }
            if let Segment::Parameter(name) = &self.segments[i] {
                names.push(name.clone());
                assert(names.deep_view() =~= before.push(name@));
            }
            i += 1;
        }
        assert(self@.take(self.segments@.len() as int) =~= self@);
        names
    }

    /// The template as a format string: each placeholder is an empty pair of
    /// braces, filled by position from left to right.
    pub fn build_template(&self) -> (format: String)
        ensures
            format@ == format_text(self@, self@.len()),
    {
        let mut format = String::new();
        let mut i: usize = 0;
        while i < self.segments.len()
            invariant
                i <= self.segments.len(),
                format@ == format_text(self@, i as nat),
            decreases self.segments.len() - i,
        {
            if i > 0 {
                format.append("/");
            }
            match &self.segments[i] {
                Segment::Literal(text) => format.append(text.as_str()),
                Segment::Parameter(_) => format.append("{}"),
            }
            proof {
                assert(self@[i as int] == self.segments@[i as int]@);
                if i == 0 {
                    assert(format@ =~= segment_format(self@[0]));
                }
            }
            i += 1;
        }
        format
    }
}

} // verus!
