//! Declarative tile widgets rendered by Pointiv around the popup command bar.
//!
//! A tile is data. An extension returns a [`TileUi`] tree, the host
//! validates it and renders native widgets. The host calls `render_tile`
//! when the popup opens and again after a tile action runs; action commands
//! are dispatched through the extension's `execute` function with the exact
//! command string the tile declared.
//!
//! Limits enforced by the host: 16 nodes per tile, nesting depth 3, 16KB of
//! JSON, title 80 chars, subtitle 120, text 300, badge and action labels 40,
//! action commands 512, 2 actions per row, 3 footer actions.
//!
//! A progress bar's fill fraction is an `f32`; this tree holds its bit
//! pattern (`f32::to_bits`), which stands for it exactly.

use vstd::prelude::*;

verus! {

use crate::json::{empty_object, into_object, json_map_entries, json_object_members, no_members};

/// Input passed to an extension's `render_tile` function.
#[derive(Debug, Clone)]
pub struct TileRenderInput {
    /// Current time as an RFC3339 timestamp.
    pub now: String,
}

/// Color tone for text, badges and countdowns.
#[derive(Debug, Clone, Copy, PartialEq, Eq, Structural, Default)]
pub enum TileTone {
    #[default]
    Neutral,
    /// The tone written `ok` on the wire.
    Okay,
    Warn,
    Danger,
}

/// A clickable action. The host runs `command` through `execute`.
#[derive(Debug, Clone)]
pub struct TileAction {
    pub label: String,
    pub command: String,
}

impl TileAction {
    pub fn new(label: &str, command: &str) -> (action: Self)
        ensures
            action.label@ == label@,
            action.command@ == command@,
    {
        TileAction { label: String::from_str(label), command: String::from_str(command) }
    }
}

/// A small status chip attached to a row.
#[derive(Debug, Clone)]
pub struct TileBadge {
    pub label: String,
    pub tone: Option<TileTone>,
}

/// One node in a tile body. Tagged with `"type"` on the wire.
#[derive(Debug)]
pub enum TileNode {
    Text { text: String, tone: Option<TileTone>, muted: Option<bool> },
    Row {
        text: String,
        secondary: Option<String>,
        badge: Option<TileBadge>,
        actions: Vec<TileAction>,
    },
    Badge { label: String, tone: Option<TileTone> },
    Progress {
        /// Bit pattern of the fill fraction, an `f32` between 0 and 1.
        value: u32,
        label: Option<String>,
    },
    Countdown {
        /// RFC3339 timestamp the host counts down to.
        deadline: String,
        label: Option<String>,
        tone: Option<TileTone>,
    },
    Divider,
    Component {
        /// Catalog name, e.g. `"mui-button"`.
        component: String,
        props: serde_json::Map<String, serde_json::Value>,
        /// Child nodes. Only `"mui-stack"` accepts children.
        children: Vec<TileNode>,
    },
}

/// `b` is a copy of `a`: the same node, except that a row's actions are a
/// vector with the same actions, and a component's props a map with the
/// same members and its children, in the same order, copies of `a`'s.
pub open spec fn copy_of(a: TileNode, b: TileNode) -> bool
    decreases a,
{
    match a {
        TileNode::Row { text, secondary, badge, actions } => b matches TileNode::Row {
            text: t,
            secondary: s,
            badge: g,
            actions: x,
        } && t == text && s == secondary && g == badge && x@ == actions@,
        TileNode::Component { component, props, children } => b matches TileNode::Component {
            component: c,
            props: p,
            children: k,
        } && c == component && json_map_entries(p) == json_map_entries(props) && k@.len()
            == children@.len() && forall|j: int|
            #![trigger k@[j]]
            0 <= j < children@.len() ==> copy_of(children@[j], k@[j]),
        _ => b == a,
    }
}

/// Law: a copy of a component keeps its children in order: child `j` of
/// the copy is a copy of child `j` of the original, and equal to it when
/// that child is neither a row nor a component.
pub proof fn lemma_copy_keeps_children(a: TileNode, b: TileNode, j: int)
    requires
        copy_of(a, b),
        a matches TileNode::Component { children, .. } && 0 <= j < children@.len(),
    ensures
        a matches TileNode::Component { children, .. } && b matches TileNode::Component {
            children: k,
            ..
        } && k@.len() == children@.len() && copy_of(children@[j], k@[j]) && (!(children@[j] is Row
            || children@[j] is Component) ==> k@[j] == children@[j]),
{
    if let TileNode::Component { children, .. } = a {
        if let TileNode::Component { children: k, .. } = b {
            assert(copy_of(children@[j], k@[j]));
            if !(children@[j] is Row || children@[j] is Component) {
                assert(k@[j] == children@[j]);
            }
        }
    }
}

fn clone_text(o: &Option<String>) -> (r: Option<String>)
    ensures
        r == *o,
{
    match o {
        Some(t) => Some(t.clone()),
        None => None,
    }
}

fn clone_badge(o: &Option<TileBadge>) -> (r: Option<TileBadge>)
    ensures
        r == *o,
{
    match o {
        Some(b) => Some(TileBadge { label: b.label.clone(), tone: b.tone }),
        None => None,
    }
}

fn clone_actions(v: &Vec<TileAction>) -> (r: Vec<TileAction>)
    ensures
        r@ == v@,
{
    let mut r: Vec<TileAction> = Vec::new();
    let mut i: usize = 0;
    while i < v.len()
        invariant
            i <= v.len(),
            r@ == v@.take(i as int),
        decreases v.len() - i,
    {
        r.push(TileAction { label: v[i].label.clone(), command: v[i].command.clone() });
        assert(v@.take(i as int + 1) =~= v@.take(i as int).push(v@[i as int]));
        i = i + 1;
    }
    assert(v@.take(v.len() as int) =~= v@);
    r
}

/// A copy of a node and, recursively, of its children: the same node,
/// except that a row's actions are a copy with the same actions, a
/// component's props a copy with the same members, and its children copies.
fn clone_node(n: &TileNode) -> (r: TileNode)
    ensures
        copy_of(*n, r),
    decreases n,
{
    let r = match n {
        TileNode::Text { text, tone, muted } => {
            let r = TileNode::Text { text: text.clone(), tone: *tone, muted: *muted };
            assert(copy_of(*n, r));
            r
        },
        TileNode::Row { text, secondary, badge, actions } => {
            let r = TileNode::Row {
                text: text.clone(),
                secondary: clone_text(secondary),
                badge: clone_badge(badge),
                actions: clone_actions(actions),
            };
            assert(copy_of(*n, r));
            r
        },
        TileNode::Badge { label, tone } => {
            let r = TileNode::Badge { label: label.clone(), tone: *tone };
            assert(copy_of(*n, r));
            r
        },
        TileNode::Progress { value, label } => {
            let r = TileNode::Progress { value: *value, label: clone_text(label) };
            assert(copy_of(*n, r));
            r
        },
        TileNode::Countdown { deadline, label, tone } => {
            let r = TileNode::Countdown {
                deadline: deadline.clone(),
                label: clone_text(label),
                tone: *tone,
            };
            assert(copy_of(*n, r));
            r
        },
        TileNode::Divider => TileNode::Divider,
        TileNode::Component { component, props, children } => {
            let mut kids: Vec<TileNode> = Vec::new();
            let mut i: usize = 0;
            assert(decreases_to!(*n => *children));
            assert(decreases_to!(*children => children@));
            assert forall|j: int| 0 <= j < children@.len() implies decreases_to!(*n => children@[j]) by {
                assert(decreases_to!(children@ => children@[j]));
            }
            while i < children.len()
                invariant
                    i <= children.len(),
                    kids@.len() == i,
                    forall|j: int| 0 <= j < i ==> #[trigger] copy_of(children@[j], kids@[j]),
                    forall|j: int| 0 <= j < children@.len() ==> decreases_to!(*n => children@[j]),
                decreases children.len() - i,
            {
                let ghost before = kids@;
                kids.push(clone_node(&children[i]));
                assert forall|j: int| 0 <= j < i + 1 implies #[trigger] copy_of(children@[j], kids@[j]) by {
                    if j < i {
                        assert(kids@[j] == before[j]);
                    }
                }
                i = i + 1;
            }
            let ghost kv = kids@;
            let c = component.clone();
            let p = props.clone();
            assert(forall|j: int| #![trigger kv[j]] 0 <= j < children@.len() ==> copy_of(children@[j], kv[j]));
            let r = TileNode::Component { component: c, props: p, children: kids };
            assert(copy_of(*n, r));
            r
        },
    };
    assert(copy_of(*n, r));
    r
}

impl Clone for TileNode {
    /// A copy of the node (see `clone_node`): equal to it, except that the
    /// vectors and maps it holds are copies with the same contents.
    fn clone(&self) -> (r: Self)
        ensures
            copy_of(*self, r),
            !(self is Component || self is Row) ==> r == *self,
    {
        clone_node(self)
    }
}

/// The full tile returned by `render_tile`.
#[derive(Debug, Clone)]
pub struct TileUi {
    pub title: String,
    pub subtitle: Option<String>,
    pub body: Vec<TileNode>,
    pub footer: Vec<TileAction>,
}

/// `o` holds a string whose characters are `s`.
pub open spec fn holds(o: Option<String>, s: Seq<char>) -> bool {
    o matches Some(t) && t@ == s
}

impl TileUi {
    /// `next` is `self` with one node appended to the body, title, subtitle
    /// and footer unchanged.
    pub open spec fn appends_node(self, next: TileUi) -> bool {
        &&& next.title == self.title
        &&& next.subtitle == self.subtitle
        &&& next.footer == self.footer
        &&& next.body@.len() == self.body@.len() + 1
        &&& next.body@.drop_last() =~= self.body@
    }

    /// The node last appended to the body.
    pub open spec fn last_node(self) -> TileNode {
        self.body@.last()
    }

    /// Start a tile with a title and an empty body.
    pub fn new(title: &str) -> (tile: Self)
        ensures
            tile.title@ == title@,
            tile.subtitle is None,
            tile.body@.len() == 0,
            tile.footer@.len() == 0,
    {
        TileUi { title: String::from_str(title), subtitle: None, body: Vec::new(), footer: Vec::new() }
    }

    /// Set the subtitle.
    pub fn subtitle(self, subtitle: &str) -> (tile: Self)
        ensures
            tile.title == self.title,
            holds(tile.subtitle, subtitle@),
            tile.body == self.body,
            tile.footer == self.footer,
    {
        let mut tile = self;
        tile.subtitle = Some(String::from_str(subtitle));
        tile
    }

    /// Append a plain text node.
    pub fn text(self, text: &str) -> (tile: Self)
        ensures
            self.appends_node(tile),
            tile.last_node() matches TileNode::Text { text: t, tone, muted } && t@ == text@
                && tone is None && muted is None,
    {
        let mut tile = self;
        tile.body.push(TileNode::Text { text: String::from_str(text), tone: None, muted: None });
        tile
    }

    /// Append a text node with a tone. Set `muted` for de-emphasized
    /// styling; an unmuted node carries no `muted` flag at all.
    pub fn text_toned(self, text: &str, tone: TileTone, muted: bool) -> (tile: Self)
        ensures
            self.appends_node(tile),
            tile.last_node() matches TileNode::Text { text: t, tone: k, muted: f } && t@ == text@
                && k == Some(tone) && f == (if muted {
                Some(true)
            } else {
                None
            }),
    {
        let mut tile = self;
        tile.body.push(
            TileNode::Text {
                text: String::from_str(text),
                tone: Some(tone),
                muted: if muted {
                    Some(true)
                } else {
                    None
                },
            },
        );
        tile
    }

    /// Append a row built with [`RowBuilder`].
    pub fn row(self, row: RowBuilder) -> (tile: Self)
        ensures
            self.appends_node(tile),
            tile.last_node() == row.row_node(),
    {
        let mut tile = self;
        tile.body.push(row.build());
        tile
    }

    /// Append a standalone badge node.
    pub fn badge(self, label: &str, tone: TileTone) -> (tile: Self)
        ensures
            self.appends_node(tile),
            tile.last_node() matches TileNode::Badge { label: l, tone: k } && l@ == label@ && k
                == Some(tone),
    {
        let mut tile = self;
        tile.body.push(TileNode::Badge { label: String::from_str(label), tone: Some(tone) });
        tile
    }

    /// Append a progress bar, given the bit pattern of its `f32` fill
    /// fraction. The fraction must be within 0..=1; the host rejects the
    /// whole tile if it is out of range.
    pub fn progress(self, value: u32) -> (tile: Self)
        ensures
            self.appends_node(tile),
            tile.last_node() == (TileNode::Progress { value, label: None }),
    {
        let mut tile = self;
        tile.body.push(TileNode::Progress { value, label: None });
        tile
    }

    /// Append a labeled progress bar (see [`TileUi::progress`]).
    pub fn progress_labeled(self, value: u32, label: &str) -> (tile: Self)
        ensures
            self.appends_node(tile),
            tile.last_node() matches TileNode::Progress { value: v, label: l } && v == value
                && holds(l, label@),
    {
        let mut tile = self;
        tile.body.push(TileNode::Progress { value, label: Some(String::from_str(label)) });
        tile
    }

    /// Append a countdown to an RFC3339 deadline.
    pub fn countdown(self, deadline: &str) -> (tile: Self)
        ensures
            self.appends_node(tile),
            tile.last_node() matches TileNode::Countdown { deadline: d, label, tone } && d@
                == deadline@ && label is None && tone is None,
    {
        let mut tile = self;
        tile.body.push(
            TileNode::Countdown { deadline: String::from_str(deadline), label: None, tone: None },
        );
        tile
    }

    /// Append a labeled, toned countdown.
    pub fn countdown_labeled(self, deadline: &str, label: &str, tone: TileTone) -> (tile: Self)
        ensures
            self.appends_node(tile),
            tile.last_node() matches TileNode::Countdown { deadline: d, label: l, tone: k } && d@
                == deadline@ && holds(l, label@) && k == Some(tone),
    {
        let mut tile = self;
        tile.body.push(
            TileNode::Countdown {
                deadline: String::from_str(deadline),
                label: Some(String::from_str(label)),
                tone: Some(tone),
            },
        );
        tile
    }

    /// Append a horizontal divider.
    pub fn divider(self) -> (tile: Self)
        ensures
            self.appends_node(tile),
            tile.last_node() is Divider,
    {
        let mut tile = self;
        tile.body.push(TileNode::Divider);
        tile
    }

    /// Append a catalog component node with no children. Its props are the
    /// map of `props_json` when that is a JSON object, and none otherwise.
    pub fn component(self, name: &str, props_json: serde_json::Value) -> (tile: Self)
        ensures
            self.appends_node(tile),
            tile.last_node() matches TileNode::Component { component: c, props, children } && c@
                == name@ && children@.len() == 0 && match json_object_members(props_json) {
                Some(m) => props == m,
                None => json_map_entries(props) == no_members(),
            },
    {
        let props = match into_object(props_json) {
            Some(map) => map,
            None => empty_object(),
        };
        let mut tile = self;
        tile.body.push(
            TileNode::Component { component: String::from_str(name), props, children: Vec::new() },
        );
        tile
    }

    /// Append any node directly. Escape hatch for shapes the helpers do not
    /// cover, such as an `mui-stack` component with children.
    pub fn node(self, node: TileNode) -> (tile: Self)
        ensures
            self.appends_node(tile),
            tile.last_node() == node,
    {
        let mut tile = self;
        tile.body.push(node);
        tile
    }

    /// Append a footer action. The host rejects the whole tile if it has
    /// more than 3 footer actions.
    pub fn footer(self, label: &str, command: &str) -> (tile: Self)
        ensures
            tile.title == self.title,
            tile.subtitle == self.subtitle,
            tile.body == self.body,
            tile.footer@.len() == self.footer@.len() + 1,
            tile.footer@.drop_last() == self.footer@,
            tile.footer@.last().label@ == label@,
            tile.footer@.last().command@ == command@,
    {
        let mut tile = self;
        tile.footer.push(TileAction::new(label, command));
        tile
    }
}

/// Builder for [`TileNode::Row`].
#[derive(Debug, Clone)]
pub struct RowBuilder {
    text: String,
    secondary: Option<String>,
    badge: Option<TileBadge>,
    actions: Vec<TileAction>,
}

impl RowBuilder {
    /// The row node that the builder stands for.
    pub closed spec fn row_node(self) -> TileNode {
        TileNode::Row {
            text: self.text,
            secondary: self.secondary,
            badge: self.badge,
            actions: self.actions,
        }
    }

    /// The row's text.
    pub closed spec fn row_text(self) -> String {
        self.text
    }

    /// The row's secondary text.
    pub closed spec fn row_secondary(self) -> Option<String> {
        self.secondary
    }

    /// The row's badge.
    pub closed spec fn row_badge(self) -> Option<TileBadge> {
        self.badge
    }

    /// The row's actions, in the order they were added.
    pub closed spec fn row_actions(self) -> Seq<TileAction> {
        self.actions@
    }

    /// The row that the builder stands for has the text, secondary text,
    /// badge and actions that it was given.
    pub proof fn lemma_row_node(self)
        ensures
            self.row_node() matches TileNode::Row { text, secondary, badge, actions } && text
                == self.row_text() && secondary == self.row_secondary() && badge
                == self.row_badge() && actions@ == self.row_actions(),
    {
    }

    /// A row with `text`, no secondary text, no badge and no actions.
    pub fn new(text: &str) -> (row: Self)
        ensures
            row.row_text()@ == text@,
            row.row_secondary() is None,
            row.row_badge() is None,
            row.row_actions().len() == 0,
    {
        RowBuilder { text: String::from_str(text), secondary: None, badge: None, actions: Vec::new() }
    }

    /// Set the secondary text.
    pub fn secondary(self, secondary: &str) -> (row: Self)
        ensures
            row.row_text() == self.row_text(),
            holds(row.row_secondary(), secondary@),
            row.row_badge() == self.row_badge(),
            row.row_actions() == self.row_actions(),
    {
        let mut row = self;
        row.secondary = Some(String::from_str(secondary));
        row
    }

    /// Set the badge.
    pub fn badge(self, label: &str, tone: TileTone) -> (row: Self)
        ensures
            row.row_text() == self.row_text(),
            row.row_secondary() == self.row_secondary(),
            row.row_badge() matches Some(b) && b.label@ == label@ && b.tone == Some(tone),
            row.row_actions() == self.row_actions(),
    {
        let mut row = self;
        row.badge = Some(TileBadge { label: String::from_str(label), tone: Some(tone) });
        row
    }

    /// Add a row action. The host rejects the whole tile if a row has more
    /// than 2 actions.
    pub fn action(self, label: &str, command: &str) -> (row: Self)
        ensures
            row.row_text() == self.row_text(),
            row.row_secondary() == self.row_secondary(),
            row.row_badge() == self.row_badge(),
            row.row_actions().len() == self.row_actions().len() + 1,
            row.row_actions().drop_last() == self.row_actions(),
            row.row_actions().last().label@ == label@,
            row.row_actions().last().command@ == command@,
    {
        let mut row = self;
        row.actions.push(TileAction::new(label, command));
        row
    }

    /// The row node.
    pub fn build(self) -> (node: TileNode)
        ensures
            node == self.row_node(),
    {
        TileNode::Row {
            text: self.text,
            secondary: self.secondary,
            badge: self.badge,
            actions: self.actions,
        }
    }
}

} // verus!
