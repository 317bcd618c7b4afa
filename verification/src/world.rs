use vstd::prelude::*;
use vstd::string::StringExecFns;
use crate::color::Color;
use crate::fps::{bucket_color, fps_bucket, spec_bucket_color, spec_fps_bucket};
use crate::style::{positioned, Style};
use crate::text::{fps_label, spec_fps_label};

verus! {

/// The roles a node can be tagged with.  The runtime queries tags by
/// presence to find widgets and to guard against double spawning.
#[derive(Clone, Copy, PartialEq, Eq, Structural, Debug)]
pub enum Marker {
    BannerWidget,
    BannerLabel,
    FpsWidget,
    FpsText,
    SimpleWidget,
    FlyingExample,
}

/// The tag set of one node, one capability flag per role.
#[derive(Clone, Copy, PartialEq, Eq, Structural, Debug)]
pub struct Tags {
    pub banner_widget: bool,
    pub banner_label: bool,
    pub fps_widget: bool,
    pub fps_text: bool,
    pub simple_widget: bool,
    pub flying_example: bool,
}

impl Tags {
    pub open spec fn none_spec() -> Tags {
        Tags {
            banner_widget: false,
            banner_label: false,
            fps_widget: false,
            fps_text: false,
            simple_widget: false,
            flying_example: false,
        }
    }

    pub fn none() -> (t: Tags)
        ensures
            t == Tags::none_spec(),
    {
        Tags {
            banner_widget: false,
            banner_label: false,
            fps_widget: false,
            fps_text: false,
            simple_widget: false,
            flying_example: false,
        }
    }
}

pub open spec fn has_marker(t: Tags, m: Marker) -> bool {
    match m {
        Marker::BannerWidget => t.banner_widget,
        Marker::BannerLabel => t.banner_label,
        Marker::FpsWidget => t.fps_widget,
        Marker::FpsText => t.fps_text,
        Marker::SimpleWidget => t.simple_widget,
        Marker::FlyingExample => t.flying_example,
    }
}

/// The tag set equal to `t` with `m` also set.
pub open spec fn with_marker(t: Tags, m: Marker) -> Tags {
    match m {
        Marker::BannerWidget => Tags { banner_widget: true, ..t },
        Marker::BannerLabel => Tags { banner_label: true, ..t },
        Marker::FpsWidget => Tags { fps_widget: true, ..t },
        Marker::FpsText => Tags { fps_text: true, ..t },
        Marker::SimpleWidget => Tags { simple_widget: true, ..t },
        Marker::FlyingExample => Tags { flying_example: true, ..t },
    }
}

pub fn marker_set(t: Tags, m: Marker) -> (b: bool)
    ensures
        b == has_marker(t, m),
{
    match m {
        Marker::BannerWidget => t.banner_widget,
        Marker::BannerLabel => t.banner_label,
        Marker::FpsWidget => t.fps_widget,
        Marker::FpsText => t.fps_text,
        Marker::SimpleWidget => t.simple_widget,
        Marker::FlyingExample => t.flying_example,
    }
}

/// Whether any node of `tags` carries the marker `m`.
pub open spec fn spec_any_marked(tags: Seq<Tags>, m: Marker) -> bool {
    exists|i: int| 0 <= i < tags.len() && has_marker(tags[i], m)
}

/// How many nodes of `tags` carry the marker `m`.
pub open spec fn count_marked(tags: Seq<Tags>, m: Marker) -> nat
    decreases tags.len(),
{
    if tags.len() == 0 {
        0
    } else {
        count_marked(tags.drop_last(), m) + if has_marker(tags.last(), m) {
            1nat
        } else {
            0nat
        }
    }
}

pub proof fn lemma_count_marked_push(tags: Seq<Tags>, t: Tags, m: Marker)
    ensures
        count_marked(tags.push(t), m) == count_marked(tags, m) + if has_marker(t, m) {
            1nat
        } else {
            0nat
        },
{
    assert(tags.push(t).drop_last() =~= tags);
    assert(tags.push(t).last() == t);
}

/// A marker occurs somewhere exactly when its count is positive.
pub proof fn lemma_count_marked_zero(tags: Seq<Tags>, m: Marker)
    ensures
        count_marked(tags, m) == 0 <==> !spec_any_marked(tags, m),
    decreases tags.len(),
{
    if tags.len() == 0 {
    } else {
        let rest = tags.drop_last();
        lemma_count_marked_zero(rest, m);
        if has_marker(tags.last(), m) {
            assert(has_marker(tags[tags.len() - 1], m));
            assert(spec_any_marked(tags, m));
        } else {
            if spec_any_marked(tags, m) {
                let i = choose|i: int| 0 <= i < tags.len() && has_marker(tags[i], m);
                assert(i < tags.len() - 1);
                assert(rest[i] == tags[i]);
                assert(spec_any_marked(rest, m));
            }
            if spec_any_marked(rest, m) {
                let i = choose|i: int| 0 <= i < rest.len() && has_marker(rest[i], m);
                assert(tags[i] == rest[i]);
                assert(spec_any_marked(tags, m));
            }
        }
    }
}

/// One text section of a node: its content, the font asset it is
/// rendered with (an empty path stands for the runtime's default
/// font), the font size in thousandths of a point, and its colour.
#[derive(Clone, Debug)]
pub struct TextSection {
    pub content: String,
    pub font: String,
    pub font_size_milli: u64,
    pub color: Color,
}

/// The font size a fresh label starts from, in thousandths.
pub const DEFAULT_FONT_SIZE_MILLI: u64 = 12_000;

impl TextSection {
    /// A fresh label section: the given content, the default font at
    /// the default size, drawn white.
    pub fn new(content: String) -> (t: TextSection)
        ensures
            t.content@ == content@,
            t.font@ == Seq::<char>::empty(),
            t.font_size_milli == DEFAULT_FONT_SIZE_MILLI,
            t.color == (Color { r: 1000, g: 1000, b: 1000 }),
    {
        let font = String::new();
        TextSection { content, font, font_size_milli: DEFAULT_FONT_SIZE_MILLI, color: Color {
            r: 1000,
            g: 1000,
            b: 1000,
        } }
    }
}

/// The registry of every spawned node, one column per component: the
/// tag set, the optional layout style, the optional text section, and
/// the optional background image asset path.  A node is an index into
/// the columns, which always have equal lengths.
pub struct UiWorld {
    pub tags: Vec<Tags>,
    pub styles: Vec<Option<Style>>,
    pub texts: Vec<Option<TextSection>>,
    pub images: Vec<Option<String>>,
}

/// The styles column after an absolute-position overwrite of node
/// `id` at `(x, y)` thousandths of a pixel: if the node exists and has
/// a style, that style is overwritten as `positioned` says; a missing
/// node or a node without a style leaves every column unchanged.
pub open spec fn spec_set_position(
    styles: Seq<Option<Style>>,
    id: int,
    x: i64,
    y: i64,
) -> Seq<Option<Style>> {
    if 0 <= id < styles.len() && styles[id] is Some {
        styles.update(id, Some(positioned(styles[id]->Some_0, x, y)))
    } else {
        styles
    }
}

/// Overwriting the same node with the same coordinates twice leaves
/// exactly the state one overwrite leaves, and a target without a
/// positionable style is left untouched both times.
pub proof fn lemma_set_position_idempotent(styles: Seq<Option<Style>>, id: int, x: i64, y: i64)
    ensures
        spec_set_position(spec_set_position(styles, id, x, y), id, x, y) == spec_set_position(
            styles,
            id,
            x,
            y,
        ),
{
    let once = spec_set_position(styles, id, x, y);
    if 0 <= id < styles.len() && styles[id] is Some {
        assert(once[id] is Some);
        assert(spec_set_position(once, id, x, y) =~= once);
    }
}

/// Whether the text section `t` holds the refreshed readout for a
/// smoothed reading of `millifps` thousandths: the rendered label, the
/// bold readout font at sixty points, and the bucket's colour.
pub open spec fn fps_text_refreshed(t: TextSection, millifps: u64) -> bool {
    &&& t.content@ == spec_fps_label(millifps)
    &&& t.font@ == "FiraSans-Bold.ttf"@
    &&& t.font_size_milli == 60_000
    &&& t.color == spec_bucket_color(spec_fps_bucket(millifps))
}

/// What one frame of the readout update leaves at index `j`: a node
/// tagged as readout text with a section present is refreshed, and
/// every other node keeps its old section.
pub open spec fn fps_updated_at(
    tags: Seq<Tags>,
    old_texts: Seq<Option<TextSection>>,
    new_texts: Seq<Option<TextSection>>,
    j: int,
    millifps: u64,
) -> bool {
    if tags[j].fps_text && old_texts[j] is Some {
        new_texts[j] is Some && fps_text_refreshed(new_texts[j]->Some_0, millifps)
    } else {
        new_texts[j] == old_texts[j]
    }
}

impl UiWorld {
    /// The four component columns describe the same nodes.
    pub open spec fn wf(self) -> bool {
        &&& self.styles@.len() == self.tags@.len()
        &&& self.texts@.len() == self.tags@.len()
        &&& self.images@.len() == self.tags@.len()
    }

    pub fn new() -> (w: UiWorld)
        ensures
            w.wf(),
            w.tags@.len() == 0,
    {
        UiWorld { tags: Vec::new(), styles: Vec::new(), texts: Vec::new(), images: Vec::new() }
    }

    pub fn len(&self) -> (n: usize)
        ensures
            n == self.tags@.len(),
    {
        self.tags.len()
    }

    /// Appends a node with the given components and returns its index.
    pub fn spawn_node(
        &mut self,
        tags: Tags,
        style: Option<Style>,
        text: Option<TextSection>,
        image: Option<String>,
    ) -> (id: usize)
        requires
            old(self).wf(),
        ensures
            final(self).wf(),
            id == old(self).tags@.len(),
            final(self).tags@ == old(self).tags@.push(tags),
            final(self).styles@ == old(self).styles@.push(style),
            final(self).texts@ == old(self).texts@.push(text),
            final(self).images@ == old(self).images@.push(image),
    {
        let id = self.tags.len();
        self.tags.push(tags);
        self.styles.push(style);
        self.texts.push(text);
        self.images.push(image);
        id
    }

    /// Sets the marker `m` on the node `id`, leaving every other
    /// component and node alone.
    pub fn insert_marker(&mut self, id: usize, m: Marker)
        requires
            old(self).wf(),
            id < old(self).tags@.len(),
        ensures
            final(self).wf(),
            final(self).tags@ == old(self).tags@.update(
                id as int,
                with_marker(old(self).tags@[id as int], m),
            ),
            final(self).styles@ == old(self).styles@,
            final(self).texts@ == old(self).texts@,
            final(self).images@ == old(self).images@,
    {
        let t = self.tags[id];
        let updated = match m {
            Marker::BannerWidget => Tags { banner_widget: true, ..t },
            Marker::BannerLabel => Tags { banner_label: true, ..t },
            Marker::FpsWidget => Tags { fps_widget: true, ..t },
            Marker::FpsText => Tags { fps_text: true, ..t },
            Marker::SimpleWidget => Tags { simple_widget: true, ..t },
            Marker::FlyingExample => Tags { flying_example: true, ..t },
        };
        self.tags.set(id, updated);
    }

    /// Whether any node carries the marker `m`: the guard the runtime
    /// runs before each spawn step.
    pub fn any_marked(&self, m: Marker) -> (b: bool)
        ensures
            b == spec_any_marked(self.tags@, m),
    {
        let mut i: usize = 0;
        while i < self.tags.len()
            invariant
                i <= self.tags@.len(),
                forall|j: int| 0 <= j < i ==> !has_marker(self.tags@[j], m),
            decreases self.tags@.len() - i,
        {
            if marker_set(self.tags[i], m) {
                assert(spec_any_marked(self.tags@, m));
                return true;
            }
            i += 1;
        }
        false
    }

    /// The absolute-position overwrite command: moves node `id` to
    /// `(x_milli, y_milli)` thousandths of a pixel if it still has a
    /// positionable style, and silently does nothing otherwise.  It
    /// never touches any other component or node.
    pub fn set_position(&mut self, id: usize, x_milli: i64, y_milli: i64)
        requires
            old(self).wf(),
        ensures
            final(self).wf(),
            final(self).tags@ == old(self).tags@,
            final(self).texts@ == old(self).texts@,
            final(self).images@ == old(self).images@,
            final(self).styles@ == spec_set_position(
                old(self).styles@,
                id as int,
                x_milli,
                y_milli,
            ),
    {
        if id < self.styles.len() {
            match self.styles[id] {
                Some(s) => {
                    self.styles.set(
                        id,
                        Some(
                            Style {
                                position: crate::style::PositionKind::Absolute,
                                left: crate::style::Dim::Px(x_milli),
                                top: crate::style::Dim::Px(y_milli),
                                right: crate::style::Dim::Auto,
                                bottom: crate::style::Dim::Auto,
                                ..s
                            },
                        ),
                    );
                },
                None => {},
            }
        }
    }

    /// The font command: gives the text section of node `id` the font
    /// asset `font` at `size_milli` thousandths of a point in the
    /// colour `color`, keeping its content.  A node without a text
    /// section is silently left alone.
    pub fn font(&mut self, id: usize, font: String, size_milli: u64, color: Color)
        requires
            old(self).wf(),
        ensures
            final(self).wf(),
            final(self).tags@ == old(self).tags@,
            final(self).styles@ == old(self).styles@,
            final(self).images@ == old(self).images@,
            final(self).texts@.len() == old(self).texts@.len(),
            forall|j: int|
                0 <= j < old(self).texts@.len() && j != id ==> final(self).texts@[j] == old(self).texts@[j],
            id < old(self).texts@.len() && old(self).texts@[id as int] is Some ==> {
                &&& final(self).texts@[id as int] is Some
                &&& final(self).texts@[id as int]->Some_0.content@ == old(self).texts@[
                    id as int
                ]->Some_0.content@
                &&& final(self).texts@[id as int]->Some_0.font@ == font@
                &&& final(self).texts@[id as int]->Some_0.font_size_milli == size_milli
                &&& final(self).texts@[id as int]->Some_0.color == color
            },
            !(id < old(self).texts@.len() && old(self).texts@[id as int] is Some) ==> final(self).texts@
                == old(self).texts@,
    {
        if id < self.texts.len() {
            let content = match &self.texts[id] {
                Some(t) => t.content.clone(),
                None => {
                    return ;
                },
            };
            self.texts.set(
                id,
                Some(TextSection { content, font, font_size_milli: size_milli, color }),
            );
        }
    }

    /// One frame of the readout update.  An absent reading skips the
    /// frame entirely; a present reading of `millifps` thousandths
    /// rewrites every readout-text node's section with the rendered
    /// label and the bucket colour, leaving everything else alone.
    pub fn update_fps(&mut self, millifps: Option<u64>)
        requires
            old(self).wf(),
        ensures
            final(self).wf(),
            final(self).tags@ == old(self).tags@,
            final(self).styles@ == old(self).styles@,
            final(self).images@ == old(self).images@,
            final(self).texts@.len() == old(self).texts@.len(),
            millifps is None ==> final(self).texts@ == old(self).texts@,
            millifps is Some ==> forall|j: int|
                0 <= j < old(self).texts@.len() ==> fps_updated_at(
                    old(self).tags@,
                    old(self).texts@,
                    final(self).texts@,
                    j,
                    millifps->Some_0,
                ),
    {
        let v = match millifps {
            Some(v) => v,
            None => {
                return ;
            },
        };
        let mut i: usize = 0;
        while i < self.texts.len()
            invariant
                self.wf(),
                self.tags@ == old(self).tags@,
                self.styles@ == old(self).styles@,
                self.images@ == old(self).images@,
                self.texts@.len() == old(self).texts@.len(),
                i <= self.texts@.len(),
                forall|j: int| i <= j < self.texts@.len() ==> self.texts@[j] == old(self).texts@[j],
                forall|j: int|
                    0 <= j < i ==> fps_updated_at(
                        old(self).tags@,
                        old(self).texts@,
                        self.texts@,
                        j,
                        v,
                    ),
            decreases self.texts@.len() - i,
        {
            let ghost head_texts = self.texts@;
            let refresh = self.tags[i].fps_text && self.texts[i].is_some();
            if refresh {
                let content = fps_label(v);
                let font = String::from_str("FiraSans-Bold.ttf");
                let color = bucket_color(fps_bucket(v));
                self.texts.set(
                    i,
                    Some(TextSection { content, font, font_size_milli: 60_000, color }),
                );
                proof {
                    assert(self.texts@[i as int] is Some);
                    assert(self.texts@[i as int]->Some_0.content@ == spec_fps_label(v));
                    assert(self.texts@[i as int]->Some_0.font@ == "FiraSans-Bold.ttf"@);
                    assert(self.texts@[i as int]->Some_0.font_size_milli == 60_000);
                    assert(self.texts@[i as int]->Some_0.color == spec_bucket_color(
                        spec_fps_bucket(v),
                    ));
                    assert(fps_updated_at(
                        old(self).tags@,
                        old(self).texts@,
                        self.texts@,
                        i as int,
                        v,
                    ));
                }
            } else {
                proof {
                    assert(fps_updated_at(
                        old(self).tags@,
                        old(self).texts@,
                        self.texts@,
                        i as int,
                        v,
                    ));
                }
            }
            proof {
                assert forall|j: int| 0 <= j < i implies fps_updated_at(
                    old(self).tags@,
                    old(self).texts@,
                    self.texts@,
                    j,
                    v,
                ) by {
                    assert(fps_updated_at(old(self).tags@, old(self).texts@, head_texts, j, v));
                    assert(self.texts@[j] == head_texts[j]);
                }
            }
            i += 1;
        }
    }
}

} // verus!
