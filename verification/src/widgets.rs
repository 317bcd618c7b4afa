use vstd::prelude::*;
use vstd::string::StringExecFns;
use crate::color::Color;
use crate::style::{positioned, AlignSelfKind, Dim, JustifyKind, PositionKind, Style};
use crate::trajectory::{banner_path, spec_banner_path_x, spec_banner_path_y, UNIT_MILLI};
use crate::world::{
    count_marked, lemma_count_marked_push, spec_any_marked, with_marker, Marker, Tags,
    TextSection, UiWorld, DEFAULT_FONT_SIZE_MILLI,
};

verus! {

/// What a banner widget is built from: its label text, the font asset
/// the label is rendered with, and the font size in thousandths of a
/// point.
pub struct BannerWidgetConfig {
    pub label: String,
    pub font: String,
    pub font_size_milli: u64,
}

impl BannerWidgetConfig {
    pub fn new(label: String, font: String, font_size_milli: u64) -> (c: BannerWidgetConfig)
        ensures
            c.label == label,
            c.font == font,
            c.font_size_milli == font_size_milli,
    {
        BannerWidgetConfig { label, font, font_size_milli }
    }
}

/// The font asset and size the hard-coded banners label themselves
/// with, the size in thousandths of a point.
pub const BANNER_FONT_SIZE_MILLI: u64 = 24_000;

pub open spec fn banner_tags() -> Tags {
    Tags { banner_widget: true, ..Tags::none_spec() }
}

pub open spec fn banner_label_tags() -> Tags {
    Tags { banner_label: true, ..Tags::none_spec() }
}

pub open spec fn fps_tags() -> Tags {
    Tags { fps_widget: true, ..Tags::none_spec() }
}

pub open spec fn fps_text_tags() -> Tags {
    Tags { fps_text: true, ..Tags::none_spec() }
}

pub open spec fn simple_tags() -> Tags {
    Tags { simple_widget: true, ..Tags::none_spec() }
}

/// The banner background: an absolutely positioned 401 x 79 pixel
/// image with its children centred.
pub open spec fn banner_style_spec() -> Style {
    Style {
        position: PositionKind::Absolute,
        width: Dim::Px(401_000),
        height: Dim::Px(79_000),
        justify: JustifyKind::Center,
        ..Style::plain_spec()
    }
}

/// The banner label sits a few pixels below the top edge of the
/// banner.
pub open spec fn banner_label_style_spec() -> Style {
    Style { align_self: AlignSelfKind::Start, top: Dim::Px(10_000), ..Style::plain_spec() }
}

/// The dark brown the banner label is drawn in.
pub open spec fn banner_text_color_spec() -> Color {
    Color { r: 471, g: 278, b: 153 }
}

/// The readout container: absolutely positioned ten pixels from the
/// right and bottom screen edges, centred content, black background.
pub open spec fn fps_style_spec() -> Style {
    Style {
        position: PositionKind::Absolute,
        right: Dim::Px(10_000),
        bottom: Dim::Px(10_000),
        justify: JustifyKind::Center,
        background: Some(Color::black_spec()),
        ..Style::plain_spec()
    }
}

/// The simple column: absolutely positioned a hundred pixels from the
/// right and top screen edges, height bound to its contents, grey
/// background.
pub open spec fn column_style_spec() -> Style {
    Style {
        position: PositionKind::Absolute,
        right: Dim::Px(100_000),
        top: Dim::Px(100_000),
        height: Dim::Auto,
        background: Some(Color { r: 500, g: 500, b: 500 }),
        ..Style::plain_spec()
    }
}

/// Whether `t` is the label section a banner built from `config`
/// carries once its font command has been applied.
pub open spec fn banner_label_section_ok(t: TextSection, config: BannerWidgetConfig) -> bool {
    &&& t.content@ == config.label@
    &&& t.font@ == config.font@
    &&& t.font_size_milli == config.font_size_milli
    &&& t.color == banner_text_color_spec()
}

/// Whether `t` is the section the readout label starts from.
pub open spec fn initial_fps_section_ok(t: TextSection) -> bool {
    &&& t.content@ == "FPS: 0"@
    &&& t.font@ == Seq::<char>::empty()
    &&& t.font_size_milli == DEFAULT_FONT_SIZE_MILLI
    &&& t.color == (Color { r: 1000, g: 1000, b: 1000 })
}

/// Whether `t` is a fresh plain label with content `content`.
pub open spec fn plain_label_section_ok(t: TextSection, content: Seq<char>) -> bool {
    &&& t.content@ == content
    &&& t.font@ == Seq::<char>::empty()
    &&& t.font_size_milli == DEFAULT_FONT_SIZE_MILLI
    &&& t.color == (Color { r: 1000, g: 1000, b: 1000 })
}

/// Whether nodes `base` and `base + 1` of `w` form one banner built
/// with the label `label`, already moved to `(x, y)`.
pub open spec fn banner_group_ok(w: UiWorld, base: int, label: Seq<char>, x: i64, y: i64) -> bool {
    &&& w.tags@[base].banner_widget
    &&& w.tags@[base + 1] == banner_label_tags()
    &&& w.styles@[base] == Some(positioned(banner_style_spec(), x, y))
    &&& w.styles@[base + 1] == Some(banner_label_style_spec())
    &&& w.texts@[base] is None
    &&& w.texts@[base + 1] is Some
    &&& w.texts@[base + 1]->Some_0.content@ == label
    &&& w.texts@[base + 1]->Some_0.font@ == "FiraSans-Bold.ttf"@
    &&& w.texts@[base + 1]->Some_0.font_size_milli == BANNER_FONT_SIZE_MILLI
    &&& w.texts@[base + 1]->Some_0.color == banner_text_color_spec()
    &&& w.images@[base] is Some
    &&& w.images@[base]->Some_0@ == "banner_title.png"@
    &&& w.images@[base + 1] is None
}

/// Whether nodes `base` and `base + 1` of `w` form the
/// frames-per-second widget as built: the pinned black container and
/// the readout label at its starting reading.
pub open spec fn fps_group_ok(w: UiWorld, base: int) -> bool {
    &&& w.tags@[base] == fps_tags()
    &&& w.tags@[base + 1] == fps_text_tags()
    &&& w.styles@[base] == Some(fps_style_spec())
    &&& w.styles@[base + 1] == Some(Style::plain_spec())
    &&& w.texts@[base] is None
    &&& w.texts@[base + 1] is Some
    &&& initial_fps_section_ok(w.texts@[base + 1]->Some_0)
    &&& w.images@[base] is None
    &&& w.images@[base + 1] is None
}

/// Whether nodes `base` to `base + 2` of `w` form the simple column
/// widget as built: the grey column and its two plain labels.
pub open spec fn simple_group_ok(w: UiWorld, base: int) -> bool {
    &&& w.tags@[base] == simple_tags()
    &&& w.tags@[base + 1] == Tags::none_spec()
    &&& w.tags@[base + 2] == Tags::none_spec()
    &&& w.styles@[base] == Some(column_style_spec())
    &&& w.styles@[base + 1] == Some(Style::plain_spec())
    &&& w.styles@[base + 2] == Some(Style::plain_spec())
    &&& w.texts@[base] is None
    &&& w.texts@[base + 1] is Some
    &&& plain_label_section_ok(w.texts@[base + 1]->Some_0, "This is label 1."@)
    &&& w.texts@[base + 2] is Some
    &&& plain_label_section_ok(w.texts@[base + 2]->Some_0, "This is another label."@)
    &&& w.images@[base] is None
    &&& w.images@[base + 1] is None
    &&& w.images@[base + 2] is None
}

/// What one pass of the flying-banner mover leaves at index `j`: a
/// flying node that still has a style is moved onto the circular path
/// point for `(sin_milli, cos_milli)`, and every other node keeps its
/// old style.
pub open spec fn banner_moved_at(
    tags: Seq<Tags>,
    old_styles: Seq<Option<Style>>,
    new_styles: Seq<Option<Style>>,
    j: int,
    sin_milli: i64,
    cos_milli: i64,
) -> bool {
    if tags[j].flying_example && old_styles[j] is Some {
        new_styles[j] == Some(
            positioned(
                old_styles[j]->Some_0,
                spec_banner_path_x(sin_milli) as i64,
                spec_banner_path_y(cos_milli) as i64,
            ),
        )
    } else {
        new_styles[j] == old_styles[j]
    }
}

impl UiWorld {
    /// Builds one banner widget: an image node with the banner
    /// background and, as its second node, the centred label, already
    /// carrying its content, font, size and colour.  Returns the index
    /// of the banner node; the label is the node after it.
    pub fn banner_widget(&mut self, config: BannerWidgetConfig) -> (id: usize)
        requires
            old(self).wf(),
        ensures
            final(self).wf(),
            id == old(self).tags@.len(),
            final(self).tags@ == old(self).tags@.push(banner_tags()).push(banner_label_tags()),
            final(self).styles@ == old(self).styles@.push(Some(banner_style_spec())).push(
                Some(banner_label_style_spec()),
            ),
            final(self).texts@.len() == old(self).texts@.len() + 2,
            final(self).images@.len() == old(self).images@.len() + 2,
            forall|j: int|
                0 <= j < old(self).texts@.len() ==> final(self).texts@[j] == old(self).texts@[j],
            forall|j: int|
                0 <= j < old(self).images@.len() ==> final(self).images@[j] == old(self).images@[j],
            final(self).texts@[id as int] is None,
            final(self).texts@[id + 1] is Some,
            banner_label_section_ok(final(self).texts@[id + 1]->Some_0, config),
            final(self).images@[id as int] is Some,
            final(self).images@[id as int]->Some_0@ == "banner_title.png"@,
            final(self).images@[id + 1] is None,
    {
        let BannerWidgetConfig { label, font, font_size_milli } = config;
        let banner_style = Style {
            position: PositionKind::Absolute,
            width: Dim::Px(401_000),
            height: Dim::Px(79_000),
            justify: JustifyKind::Center,
            ..Style::plain()
        };
        let id = self.spawn_node(
            Tags { banner_widget: true, ..Tags::none() },
            Some(banner_style),
            None,
            Some(String::from_str("banner_title.png")),
        );
        let label_style = Style {
            align_self: AlignSelfKind::Start,
            top: Dim::Px(10_000),
            ..Style::plain()
        };
        let label_id = self.spawn_node(
            Tags { banner_label: true, ..Tags::none() },
            Some(label_style),
            Some(TextSection::new(label)),
            None,
        );
        self.font(label_id, font, font_size_milli, Color { r: 471, g: 278, b: 153 });
        id
    }

    /// Builds the frames-per-second widget: a black container pinned
    /// to the bottom-right corner and its readout label, starting at
    /// a zero reading.  Returns the index of the container node; the
    /// label is the node after it.
    pub fn fps(&mut self) -> (id: usize)
        requires
            old(self).wf(),
        ensures
            final(self).wf(),
            id == old(self).tags@.len(),
            final(self).tags@ == old(self).tags@.push(fps_tags()).push(fps_text_tags()),
            final(self).styles@ == old(self).styles@.push(Some(fps_style_spec())).push(
                Some(Style::plain_spec()),
            ),
            final(self).images@ == old(self).images@.push(None).push(None),
            final(self).texts@.len() == old(self).texts@.len() + 2,
            forall|j: int|
                0 <= j < old(self).texts@.len() ==> final(self).texts@[j] == old(self).texts@[j],
            final(self).texts@[id as int] is None,
            final(self).texts@[id + 1] is Some,
            initial_fps_section_ok(final(self).texts@[id + 1]->Some_0),
    {
        let container_style = Style {
            position: PositionKind::Absolute,
            right: Dim::Px(10_000),
            bottom: Dim::Px(10_000),
            justify: JustifyKind::Center,
            background: Some(Color::black()),
            ..Style::plain()
        };
        let id = self.spawn_node(
            Tags { fps_widget: true, ..Tags::none() },
            Some(container_style),
            None,
            None,
        );
        self.spawn_node(
            Tags { fps_text: true, ..Tags::none() },
            Some(Style::plain()),
            Some(TextSection::new(String::from_str("FPS: 0"))),
            None,
        );
        id
    }

    /// The guarded spawn step for the frames-per-second widget: if any
    /// node already carries its marker, nothing at all changes;
    /// otherwise exactly one more marked instance is built.
    pub fn spawn_fps_widget(&mut self)
        requires
            old(self).wf(),
        ensures
            final(self).wf(),
            spec_any_marked(old(self).tags@, Marker::FpsWidget) ==> (final(self).tags@ == old(self).tags@ && final(self).styles@ == old(self).styles@ && final(self).texts@ == old(self).texts@ && final(self).images@ == old(self).images@),
            !spec_any_marked(old(self).tags@, Marker::FpsWidget) ==> (final(self).tags@.len()
                == old(self).tags@.len() + 2 && fps_group_ok(*final(self), old(self).tags@.len() as int)
                && count_marked(final(self).tags@, Marker::FpsWidget) == count_marked(
                old(self).tags@,
                Marker::FpsWidget,
            ) + 1 && (forall|j: int|
                0 <= j < old(self).tags@.len() ==> final(self).tags@[j] == old(self).tags@[j]
                    && final(self).styles@[j] == old(self).styles@[j] && final(self).texts@[j]
                    == old(self).texts@[j] && final(self).images@[j] == old(self).images@[j])),
    {
        if self.any_marked(Marker::FpsWidget) {
            return ;
        }
        let ghost t0 = self.tags@;
        self.fps();
        proof {
            lemma_count_marked_push(t0, fps_tags(), Marker::FpsWidget);
            lemma_count_marked_push(t0.push(fps_tags()), fps_text_tags(), Marker::FpsWidget);
        }
    }

    /// The guarded spawn step for the simple column widget: if any
    /// node already carries its marker, nothing at all changes;
    /// otherwise exactly one more marked instance is built.
    pub fn spawn_simple_widget(&mut self)
        requires
            old(self).wf(),
        ensures
            final(self).wf(),
            spec_any_marked(old(self).tags@, Marker::SimpleWidget) ==> (final(self).tags@ == old(self).tags@ && final(self).styles@ == old(self).styles@ && final(self).texts@ == old(self).texts@ && final(self).images@ == old(self).images@),
            !spec_any_marked(old(self).tags@, Marker::SimpleWidget) ==> (final(self).tags@.len()
                == old(self).tags@.len() + 3 && simple_group_ok(
                *final(self),
                old(self).tags@.len() as int,
            ) && count_marked(final(self).tags@, Marker::SimpleWidget) == count_marked(
                old(self).tags@,
                Marker::SimpleWidget,
            ) + 1 && (forall|j: int|
                0 <= j < old(self).tags@.len() ==> final(self).tags@[j] == old(self).tags@[j]
                    && final(self).styles@[j] == old(self).styles@[j] && final(self).texts@[j]
                    == old(self).texts@[j] && final(self).images@[j] == old(self).images@[j])),
    {
        if self.any_marked(Marker::SimpleWidget) {
            return ;
        }
        let ghost t0 = self.tags@;
        let column_style = Style {
            position: PositionKind::Absolute,
            right: Dim::Px(100_000),
            top: Dim::Px(100_000),
            height: Dim::Auto,
            background: Some(Color { r: 500, g: 500, b: 500 }),
            ..Style::plain()
        };
        self.spawn_node(
            Tags { simple_widget: true, ..Tags::none() },
            Some(column_style),
            None,
            None,
        );
        self.spawn_node(
            Tags::none(),
            Some(Style::plain()),
            Some(TextSection::new(String::from_str("This is label 1."))),
            None,
        );
        self.spawn_node(
            Tags::none(),
            Some(Style::plain()),
            Some(TextSection::new(String::from_str("This is another label."))),
            None,
        );
        proof {
            lemma_count_marked_push(t0, simple_tags(), Marker::SimpleWidget);
            lemma_count_marked_push(t0.push(simple_tags()), Tags::none_spec(), Marker::SimpleWidget);
            lemma_count_marked_push(
                t0.push(simple_tags()).push(Tags::none_spec()),
                Tags::none_spec(),
                Marker::SimpleWidget,
            );
        }
    }

    /// The guarded spawn step for the three hard-coded banners: if any
    /// node already carries the banner marker, nothing at all changes.
    /// Otherwise three banners are built and moved to their fixed
    /// positions, and exactly one of them — the one at the centre of
    /// the circular path — is marked as the flying example.
    pub fn spawn_banner_widgets(&mut self)
        requires
            old(self).wf(),
        ensures
            final(self).wf(),
            spec_any_marked(old(self).tags@, Marker::BannerWidget) ==> (final(self).tags@ == old(self).tags@ && final(self).styles@ == old(self).styles@ && final(self).texts@ == old(self).texts@ && final(self).images@ == old(self).images@),
            !spec_any_marked(old(self).tags@, Marker::BannerWidget) ==> (final(self).tags@.len()
                == old(self).tags@.len() + 6 && banner_group_ok(
                *final(self),
                old(self).tags@.len() as int,
                "Hello, World!"@,
                100_000,
                100_000,
            ) && banner_group_ok(
                *final(self),
                old(self).tags@.len() + 2int,
                "Bonjour, le Monde!"@,
                300_000,
                300_000,
            ) && banner_group_ok(
                *final(self),
                old(self).tags@.len() + 4int,
                "¡Hola, Mundo!"@,
                700_000,
                100_000,
            ) && final(self).tags@[old(self).tags@.len() + 4int].flying_example && count_marked(
                final(self).tags@,
                Marker::BannerWidget,
            ) == count_marked(old(self).tags@, Marker::BannerWidget) + 3 && count_marked(
                final(self).tags@,
                Marker::FlyingExample,
            ) == count_marked(old(self).tags@, Marker::FlyingExample) + 1 && (forall|j: int|
                0 <= j < old(self).tags@.len() ==> final(self).tags@[j] == old(self).tags@[j]
                    && final(self).styles@[j] == old(self).styles@[j] && final(self).texts@[j]
                    == old(self).texts@[j] && final(self).images@[j] == old(self).images@[j])),
    {
        if self.any_marked(Marker::BannerWidget) {
            return ;
        }
        let ghost t0 = self.tags@;
        let font_a = String::from_str("FiraSans-Bold.ttf");
        let font_b = String::from_str("FiraSans-Bold.ttf");
        let font_c = String::from_str("FiraSans-Bold.ttf");
        let id1 = self.banner_widget(
            BannerWidgetConfig::new(
                String::from_str("Hello, World!"),
                font_a,
                BANNER_FONT_SIZE_MILLI,
            ),
        );
        self.set_position(id1, 100_000, 100_000);
        let id2 = self.banner_widget(
            BannerWidgetConfig::new(
                String::from_str("Bonjour, le Monde!"),
                font_b,
                BANNER_FONT_SIZE_MILLI,
            ),
        );
        self.set_position(id2, 300_000, 300_000);
        let id3 = self.banner_widget(
            BannerWidgetConfig::new(
                String::from_str("¡Hola, Mundo!"),
                font_c,
                BANNER_FONT_SIZE_MILLI,
            ),
        );
        self.set_position(id3, 700_000, 100_000);
        self.insert_marker(id3, Marker::FlyingExample);
        proof {
            let bf = with_marker(banner_tags(), Marker::FlyingExample);
            let pushed = t0.push(banner_tags()).push(banner_label_tags()).push(
                banner_tags(),
            ).push(banner_label_tags()).push(bf).push(banner_label_tags());
            assert(self.tags@ =~= pushed);
            lemma_count_marked_push(t0, banner_tags(), Marker::BannerWidget);
            lemma_count_marked_push(t0.push(banner_tags()), banner_label_tags(), Marker::BannerWidget);
            lemma_count_marked_push(
                t0.push(banner_tags()).push(banner_label_tags()),
                banner_tags(),
                Marker::BannerWidget,
            );
            lemma_count_marked_push(
                t0.push(banner_tags()).push(banner_label_tags()).push(banner_tags()),
                banner_label_tags(),
                Marker::BannerWidget,
            );
            lemma_count_marked_push(
                t0.push(banner_tags()).push(banner_label_tags()).push(banner_tags()).push(
                    banner_label_tags(),
                ),
                bf,
                Marker::BannerWidget,
            );
            lemma_count_marked_push(
                t0.push(banner_tags()).push(banner_label_tags()).push(banner_tags()).push(
                    banner_label_tags(),
                ).push(bf),
                banner_label_tags(),
                Marker::BannerWidget,
            );
            lemma_count_marked_push(t0, banner_tags(), Marker::FlyingExample);
            lemma_count_marked_push(t0.push(banner_tags()), banner_label_tags(), Marker::FlyingExample);
            lemma_count_marked_push(
                t0.push(banner_tags()).push(banner_label_tags()),
                banner_tags(),
                Marker::FlyingExample,
            );
            lemma_count_marked_push(
                t0.push(banner_tags()).push(banner_label_tags()).push(banner_tags()),
                banner_label_tags(),
                Marker::FlyingExample,
            );
            lemma_count_marked_push(
                t0.push(banner_tags()).push(banner_label_tags()).push(banner_tags()).push(
                    banner_label_tags(),
                ),
                bf,
                Marker::FlyingExample,
            );
            lemma_count_marked_push(
                t0.push(banner_tags()).push(banner_label_tags()).push(banner_tags()).push(
                    banner_label_tags(),
                ).push(bf),
                banner_label_tags(),
                Marker::FlyingExample,
            );
        }
    }

    /// Recomputes the position of every flying banner for the given
    /// sine and cosine of the elapsed time, both in thousandths: each
    /// one is moved onto the circular path, and nothing else changes.
    pub fn move_banner_example(&mut self, sin_milli: i64, cos_milli: i64)
        requires
            old(self).wf(),
            -UNIT_MILLI <= sin_milli <= UNIT_MILLI,
            -UNIT_MILLI <= cos_milli <= UNIT_MILLI,
        ensures
            final(self).wf(),
            final(self).tags@ == old(self).tags@,
            final(self).texts@ == old(self).texts@,
            final(self).images@ == old(self).images@,
            final(self).styles@.len() == old(self).styles@.len(),
            forall|j: int|
                0 <= j < old(self).styles@.len() ==> banner_moved_at(
                    old(self).tags@,
                    old(self).styles@,
                    final(self).styles@,
                    j,
                    sin_milli,
                    cos_milli,
                ),
    {
        let (x, y) = banner_path(sin_milli, cos_milli);
        let mut i: usize = 0;
        while i < self.styles.len()
            invariant
                self.wf(),
                self.tags@ == old(self).tags@,
                self.texts@ == old(self).texts@,
                self.images@ == old(self).images@,
                self.styles@.len() == old(self).styles@.len(),
                i <= self.styles@.len(),
                x == spec_banner_path_x(sin_milli),
                y == spec_banner_path_y(cos_milli),
                forall|j: int|
                    i <= j < self.styles@.len() ==> self.styles@[j] == old(self).styles@[j],
                forall|j: int|
                    0 <= j < i ==> banner_moved_at(
                        old(self).tags@,
                        old(self).styles@,
                        self.styles@,
                        j,
                        sin_milli,
                        cos_milli,
                    ),
            decreases self.styles@.len() - i,
        {
            let ghost head_styles = self.styles@;
            if self.tags[i].flying_example {
                self.set_position(i, x, y);
            }
            proof {
                assert(banner_moved_at(
                    old(self).tags@,
                    old(self).styles@,
                    self.styles@,
                    i as int,
                    sin_milli,
                    cos_milli,
                ));
                assert forall|j: int| 0 <= j < i implies banner_moved_at(
                    old(self).tags@,
                    old(self).styles@,
                    self.styles@,
                    j,
                    sin_milli,
                    cos_milli,
                ) by {
                    assert(banner_moved_at(
                        old(self).tags@,
                        old(self).styles@,
                        head_styles,
                        j,
                        sin_milli,
                        cos_milli,
                    ));
                    assert(self.styles@[j] == head_styles[j]);
                }
            }
            i += 1;
        }
    }
}

} // verus!
