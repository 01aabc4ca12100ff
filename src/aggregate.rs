//! The status fields reported so far, the test for whether they are ready
//! to show, and their snapshot.
use crate::tags::{project, project_tags, word_bits, word_to_bits};
use vstd::prelude::*;

verus! {

/// The layout name: never reported, reported, or reported and then cleared.
#[derive(Clone, Debug)]
pub enum Layout {
    Unset,
    Named(String),
    Cleared,
}

/// An event of the output status object.
#[derive(Clone, Debug)]
pub enum OutputEvent {
    /// The tags focused on the output, as a tag word.
    FocusedTags { tags: u32 },
    /// The tags holding urgent views on the output, as a tag word.
    UrgentTags { tags: u32 },
    /// The name of the output's layout.
    LayoutName { name: String },
    /// The output's layout name no longer applies.
    LayoutNameClear,
}

/// An event of the seat status object.
#[derive(Clone, Debug)]
pub enum SeatEvent {
    /// The title of the focused view; empty is a title too.
    FocusedView { title: String },
    /// The name of the current input mode.
    Mode { name: String },
}

/// The published projection of a complete aggregate.
#[derive(Clone, Debug)]
pub struct Snapshot {
    pub title: String,
    pub mode: String,
    pub layout: Option<String>,
    pub urgent: Vec<bool>,
    pub focused: Vec<bool>,
}

/// A field that a projection needed and found unset.
#[derive(Clone, Copy, Debug, PartialEq, Eq, Structural)]
pub enum ProjectError {
    MissingTitle,
    MissingMode,
    MissingUrgent,
    MissingFocused,
}

/// The fields reported so far, and whether any changed since the last
/// publication.
#[derive(Clone, Debug)]
pub struct Aggregate {
    pub title: Option<String>,
    pub mode: Option<String>,
    pub layout: Layout,
    pub focused: Option<Vec<bool>>,
    pub urgent: Option<Vec<bool>>,
    pub dirty: bool,
}

/// The layout, as a value.
pub enum LayoutView {
    Unset,
    Named(Seq<char>),
    Cleared,
}

/// A status event of either object, as a value.
pub enum StatusEventView {
    FocusedTags(u32),
    UrgentTags(u32),
    LayoutName(Seq<char>),
    LayoutNameClear,
    FocusedView(Seq<char>),
    Mode(Seq<char>),
}

/// The aggregate, as a value.
pub struct AggregateView {
    pub title: Option<Seq<char>>,
    pub mode: Option<Seq<char>>,
    pub layout: LayoutView,
    pub focused: Option<Seq<bool>>,
    pub urgent: Option<Seq<bool>>,
    pub dirty: bool,
}

/// A snapshot, as a value.
pub struct SnapshotView {
    pub title: Seq<char>,
    pub mode: Seq<char>,
    pub layout: Option<Seq<char>>,
    pub urgent: Seq<bool>,
    pub focused: Seq<bool>,
}

/// An optional string, as a value.
pub open spec fn string_opt_view(o: Option<String>) -> Option<Seq<char>> {
    match o {
        Some(s) => Some(s@),
        None => None,
    }
}

/// An optional bit-set, as a value.
pub open spec fn bits_opt_view(o: Option<Vec<bool>>) -> Option<Seq<bool>> {
    match o {
        Some(v) => Some(v@),
        None => None,
    }
}

impl View for Layout {
    type V = LayoutView;

    open spec fn view(&self) -> LayoutView {
        match self {
            Layout::Unset => LayoutView::Unset,
            Layout::Named(s) => LayoutView::Named(s@),
            Layout::Cleared => LayoutView::Cleared,
        }
    }
}

impl View for OutputEvent {
    type V = StatusEventView;

    open spec fn view(&self) -> StatusEventView {
        match self {
            OutputEvent::FocusedTags { tags } => StatusEventView::FocusedTags(*tags),
            OutputEvent::UrgentTags { tags } => StatusEventView::UrgentTags(*tags),
            OutputEvent::LayoutName { name } => StatusEventView::LayoutName(name@),
            OutputEvent::LayoutNameClear => StatusEventView::LayoutNameClear,
        }
    }
}

impl View for SeatEvent {
    type V = StatusEventView;

    open spec fn view(&self) -> StatusEventView {
        match self {
            SeatEvent::FocusedView { title } => StatusEventView::FocusedView(title@),
            SeatEvent::Mode { name } => StatusEventView::Mode(name@),
        }
    }
}

impl View for Aggregate {
    type V = AggregateView;

    open spec fn view(&self) -> AggregateView {
        AggregateView {
            title: string_opt_view(self.title),
            mode: string_opt_view(self.mode),
            layout: self.layout@,
            focused: bits_opt_view(self.focused),
            urgent: bits_opt_view(self.urgent),
            dirty: self.dirty,
        }
    }
}

impl View for Snapshot {
    type V = SnapshotView;

    open spec fn view(&self) -> SnapshotView {
        SnapshotView {
            title: self.title@,
            mode: self.mode@,
            layout: string_opt_view(self.layout),
            urgent: self.urgent@,
            focused: self.focused@,
        }
    }
}

/// The aggregate before any event: nothing set, and dirty, so that the first
/// complete aggregate is published.
pub open spec fn initial() -> AggregateView {
    AggregateView {
        title: None,
        mode: None,
        layout: LayoutView::Unset,
        focused: None,
        urgent: None,
        dirty: true,
    }
}

/// The aggregate after event `e`: the field that `e` reports replaced, and
/// dirty whatever the new value is.
pub open spec fn apply(a: AggregateView, e: StatusEventView) -> AggregateView {
    let b = match e {
        StatusEventView::FocusedTags(w) => AggregateView { focused: Some(word_bits(w)), ..a },
        StatusEventView::UrgentTags(w) => AggregateView { urgent: Some(word_bits(w)), ..a },
        StatusEventView::LayoutName(s) => AggregateView { layout: LayoutView::Named(s), ..a },
        StatusEventView::LayoutNameClear => AggregateView { layout: LayoutView::Cleared, ..a },
        StatusEventView::FocusedView(s) => AggregateView { title: Some(s), ..a },
        StatusEventView::Mode(s) => AggregateView { mode: Some(s), ..a },
    };
    AggregateView { dirty: true, ..b }
}

/// Whether every field that a snapshot needs has been set; the layout may
/// stay absent.
pub open spec fn is_complete(a: AggregateView) -> bool {
    &&& a.title is Some
    &&& a.mode is Some
    &&& a.focused is Some
    &&& a.urgent is Some
}

/// The layout that a snapshot shows: absent unless a name stands.
pub open spec fn layout_shown(l: LayoutView) -> Option<Seq<char>> {
    match l {
        LayoutView::Named(s) => Some(s),
        _ => None,
    }
}

/// The snapshot of `a` on `n` tags, or the first missing field, looked for in
/// the order title, mode, urgent tags, focused tags.
pub open spec fn snapshot_of(a: AggregateView, n: nat) -> Result<SnapshotView, ProjectError> {
    if a.title is None {
        Err(ProjectError::MissingTitle)
    } else if a.mode is None {
        Err(ProjectError::MissingMode)
    } else if a.urgent is None {
        Err(ProjectError::MissingUrgent)
    } else if a.focused is None {
        Err(ProjectError::MissingFocused)
    } else {
        Ok(
            SnapshotView {
                title: a.title.unwrap(),
                mode: a.mode.unwrap(),
                layout: layout_shown(a.layout),
                urgent: project(a.urgent.unwrap(), n),
                focused: project(a.focused.unwrap(), n),
            },
        )
    }
}

impl Aggregate {
    /// The aggregate before any event.
    pub fn new() -> (r: Aggregate)
        ensures
            r@ == initial(),
    {
        Aggregate {
            title: None,
            mode: None,
            layout: Layout::Unset,
            focused: None,
            urgent: None,
            dirty: true,
        }
    }

    /// Folds in an event of the output status object.
    pub fn apply_output(&mut self, event: OutputEvent)
        ensures
            final(self)@ == apply(old(self)@, event@),
    {
        match event {
            OutputEvent::FocusedTags { tags } => {
                self.focused = Some(word_to_bits(tags));
            },
            OutputEvent::UrgentTags { tags } => {
                self.urgent = Some(word_to_bits(tags));
            },
            OutputEvent::LayoutName { name } => {
                self.layout = Layout::Named(name);
            },
            OutputEvent::LayoutNameClear => {
                self.layout = Layout::Cleared;
            },
        }
        self.dirty = true;
    }

    /// Folds in an event of the seat status object.
    pub fn apply_seat(&mut self, event: SeatEvent)
        ensures
            final(self)@ == apply(old(self)@, event@),
    {
        match event {
            SeatEvent::FocusedView { title } => {
                self.title = Some(title);
            },
            SeatEvent::Mode { name } => {
                self.mode = Some(name);
            },
        }
        self.dirty = true;
    }

    /// Whether every field that a snapshot needs has been set.
    pub fn is_complete(&self) -> (r: bool)
        ensures
            r == is_complete(self@),
    {
        self.title.is_some() && self.mode.is_some() && self.focused.is_some()
            && self.urgent.is_some()
    }

    /// Whether the aggregate is complete and changed since the last
    /// publication.
    pub fn is_ready(&self) -> (r: bool)
        ensures
            r == (is_complete(self@) && self@.dirty),
    {
        self.is_complete() && self.dirty
    }

    /// Projects the aggregate onto `tags` tags.
    pub fn to_snapshot(&self, tags: usize) -> (r: Result<Snapshot, ProjectError>)
        ensures
            match r {
                Ok(s) => snapshot_of(self@, tags as nat) == Ok::<SnapshotView, ProjectError>(s@),
                Err(e) => snapshot_of(self@, tags as nat) == Err::<SnapshotView, ProjectError>(e),
            },
    {
        let title = match &self.title {
            Some(t) => t.clone(),
            None => {
                return Err(ProjectError::MissingTitle);
            },
        };
        let mode = match &self.mode {
            Some(m) => m.clone(),
            None => {
                return Err(ProjectError::MissingMode);
            },
        };
        let urgent = match &self.urgent {
            Some(u) => project_tags(u, tags),
            None => {
                return Err(ProjectError::MissingUrgent);
            },
        };
        let focused = match &self.focused {
            Some(f) => project_tags(f, tags),
            None => {
                return Err(ProjectError::MissingFocused);
            },
        };
        let layout = match &self.layout {
            Layout::Named(s) => Some(s.clone()),
            _ => None,
        };
        Ok(Snapshot { title, mode, layout, urgent, focused })
    }
}

/// Once complete, an aggregate stays complete whatever event follows.
pub proof fn lemma_complete_stays_complete(a: AggregateView, e: StatusEventView)
    requires
        is_complete(a),
    ensures
        is_complete(apply(a, e)),
{
}

/// A layout name that is then cleared leaves the snapshot as if no layout
/// had ever been reported.
pub proof fn lemma_cleared_layout_is_absent(a: AggregateView, name: Seq<char>, n: nat)
    ensures
        snapshot_of(
            apply(apply(a, StatusEventView::LayoutName(name)), StatusEventView::LayoutNameClear),
            n,
        ) == snapshot_of(AggregateView { layout: LayoutView::Unset, ..a }, n),
        is_complete(a) ==> (snapshot_of(
            apply(apply(a, StatusEventView::LayoutName(name)), StatusEventView::LayoutNameClear),
            n,
        )->Ok_0).layout is None,
{
}

} // verus!
