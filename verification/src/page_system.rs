//! Pages, overlays, the input ledger and the hit tester.

use crate::geometry::{Color, Rect};
use crate::history::{most_recent, shifted_cursor, trim_history, HISTORY_LIMIT};
use crate::ledger::{
    ensure_entries, ensured, flatten, flattened, ids_comparable, snapshot, texts_of, unique_keys,
    view_of, LedgerView,
};
use crate::scene_transition::TransitionType;
use crate::state::AppState;
use std::collections::VecDeque;
use vstd::laws_eq::obeys_concrete_eq;
use vstd::prelude::*;

verus! {

/// Decorative rectangles: colour, geometry and corner radius.
pub type Rects = Option<Vec<(Color, (Rect, i32))>>;

/// Text labels: font size, position, content and colour.
pub type Texts = Option<Vec<(u32, (i32, i32), String, Color)>>;

/// Buttons, in declaration order.
pub type Buttons<ButtonId> = Option<Vec<Button<ButtonId>>>;

/// Images: position, size and source reference.
pub type Images = Option<Vec<((i32, i32), (u32, u32), String)>>;

/// A logical button. A disabled button is not drawn and cannot be pressed,
/// but it still blocks the pointer from what lies behind it.
#[derive(PartialEq, Clone, Copy, Debug)]
pub struct Button<ButtonId> {
    pub enabled: bool,
    pub color: Color,
    pub rect: Rect,
    pub radius: i32,
    pub id: ButtonId,
    pub has_transition: Option<TransitionType>,
}

/// A fully described screen. `has_persistent_elements` names the overlays
/// composited with it and `has_userinput` the (page, button) pairs that need
/// a text slot in the ledger.
#[derive(Clone, Debug)]
pub struct Page<PageId, ButtonId> {
    pub has_persistent_elements: Option<Vec<PageId>>,
    pub has_userinput: Option<Vec<(PageId, ButtonId)>>,
    pub id: PageId,
    pub background_color: Option<Color>,
    pub rects: Rects,
    pub buttons: Buttons<ButtonId>,
    pub texts: Texts,
    pub images: Images,
}

/// Chrome shown above the current page, such as a navigation bar.
#[derive(Clone, Debug)]
pub struct PersistentElements<PageId, ButtonId> {
    pub id: PageId,
    pub background_color: Option<Color>,
    pub rects: Rects,
    pub buttons: Buttons<ButtonId>,
    pub texts: Texts,
    pub images: Images,
}

/// What the pointer meets in one layer, or in a stack of layers.
#[derive(Clone, Copy, Debug, PartialEq)]
pub enum Hit<ButtonId> {
    /// An enabled button.
    Button(ButtonId),
    /// A disabled button, a rectangle or an image: the search stops and
    /// finds nothing.
    Blocked,
    /// Nothing: the search goes on behind this layer.
    Miss,
}

/// The shapes of a page or of one overlay that can stop the pointer, each
/// list in declaration order.
pub struct Layer<ButtonId> {
    pub buttons: Seq<Button<ButtonId>>,
    pub rects: Seq<Rect>,
    pub images: Seq<Rect>,
}

/// The buttons of a list that may be absent.
pub open spec fn buttons_of<ButtonId>(buttons: Buttons<ButtonId>) -> Seq<Button<ButtonId>> {
    match buttons {
        Some(list) => list@,
        None => Seq::empty(),
    }
}

/// The areas of decorative rectangles.
pub open spec fn rects_of(rects: Rects) -> Seq<Rect> {
    match rects {
        Some(list) => Seq::new(list@.len(), |i: int| list@[i].1.0),
        None => Seq::empty(),
    }
}

/// The area of each image: the rectangle built from its position and size.
pub open spec fn images_of(images: Images) -> Seq<Rect> {
    match images {
        Some(list) => Seq::new(
            list@.len(),
            |i: int| Rect::new_spec(list@[i].0.0, list@[i].0.1, list@[i].1.0, list@[i].1.1),
        ),
        None => Seq::empty(),
    }
}

/// Index of the most recently declared button among the first `top` that
/// the point lies on.
pub open spec fn topmost_button<ButtonId>(
    buttons: Seq<Button<ButtonId>>,
    x: i32,
    y: i32,
    top: int,
) -> Option<int>
    decreases top,
{
    if top <= 0 {
        None
    } else if buttons[top - 1].rect.covers_spec(x, y) {
        Some(top - 1)
    } else {
        topmost_button(buttons, x, y, top - 1)
    }
}

/// Whether the point lies on any of the rectangles.
pub open spec fn any_covers(rects: Seq<Rect>, x: i32, y: i32) -> bool {
    exists|i: int| 0 <= i < rects.len() && #[trigger] rects[i].covers_spec(x, y)
}

impl<ButtonId> Layer<ButtonId> {
    /// What the pointer meets in this layer. Buttons are in front of
    /// rectangles and rectangles in front of images; among buttons the most
    /// recently declared is in front.
    pub open spec fn probe(self, x: i32, y: i32) -> Hit<ButtonId> {
        match topmost_button(self.buttons, x, y, self.buttons.len() as int) {
            Some(i) => if self.buttons[i].enabled {
                Hit::Button(self.buttons[i].id)
            } else {
                Hit::Blocked
            },
            None => if any_covers(self.rects, x, y) || any_covers(self.images, x, y) {
                Hit::Blocked
            } else {
                Hit::Miss
            },
        }
    }
}

/// What the pointer meets in the first `top` layers of a stack that is
/// ordered back to front: the frontmost layer that does not miss decides.
pub open spec fn probe_stack<ButtonId>(
    layers: Seq<Layer<ButtonId>>,
    x: i32,
    y: i32,
    top: int,
) -> Hit<ButtonId>
    decreases top,
{
    if top <= 0 {
        Hit::Miss
    } else {
        let hit = layers[top - 1].probe(x, y);
        if hit is Miss {
            probe_stack(layers, x, y, top - 1)
        } else {
            hit
        }
    }
}

impl<PageId, ButtonId> Page<PageId, ButtonId> {
    /// The shapes of the page that can stop the pointer.
    pub open spec fn layer(&self) -> Layer<ButtonId> {
        Layer {
            buttons: buttons_of(self.buttons),
            rects: rects_of(self.rects),
            images: images_of(self.images),
        }
    }
}

impl<PageId, ButtonId> PersistentElements<PageId, ButtonId> {
    /// The shapes of the overlay that can stop the pointer.
    pub open spec fn layer(&self) -> Layer<ButtonId> {
        Layer {
            buttons: buttons_of(self.buttons),
            rects: rects_of(self.rects),
            images: images_of(self.images),
        }
    }
}

/// In a stack whose layer `i` does not miss, the layers behind it are never
/// asked: the outcome is that of the stack from layer `i` up.
pub proof fn lemma_probe_stops_at<ButtonId>(
    layers: Seq<Layer<ButtonId>>,
    x: i32,
    y: i32,
    i: int,
    top: int,
)
    requires
        0 <= i < top <= layers.len(),
        !(layers[i].probe(x, y) is Miss),
    ensures
        probe_stack(layers, x, y, top) == probe_stack(layers.subrange(i, top), x, y, top - i),
        !(probe_stack(layers, x, y, top) is Miss),
    decreases top - i,
{
    let front = layers.subrange(i, top);
    assert(front[top - i - 1] == layers[top - 1]);
    if layers[top - 1].probe(x, y) is Miss {
        lemma_probe_stops_at(layers, x, y, i, top - 1);
        lemma_probe_ignores_rest(front, layers.subrange(i, top - 1), x, y, top - i - 1);
    }
}

/// The outcome for the first `top` layers depends on those layers alone.
proof fn lemma_probe_ignores_rest<ButtonId>(
    a: Seq<Layer<ButtonId>>,
    b: Seq<Layer<ButtonId>>,
    x: i32,
    y: i32,
    top: int,
)
    requires
        0 <= top <= a.len(),
        top <= b.len(),
        forall|j: int| 0 <= j < top ==> a[j] == b[j],
    ensures
        probe_stack(a, x, y, top) == probe_stack(b, x, y, top),
    decreases top,
{
    if top > 0 {
        lemma_probe_ignores_rest(a, b, x, y, top - 1);
    }
}

/// A button found by the stack is an enabled button under the pointer in
/// one of its layers, in front of every other button of that layer under
/// the pointer.
pub proof fn lemma_found_button<ButtonId>(layers: Seq<Layer<ButtonId>>, x: i32, y: i32, top: int)
    requires
        0 <= top <= layers.len(),
        probe_stack(layers, x, y, top) is Button,
    ensures
        exists|j: int, b: int|
            0 <= j < top && 0 <= b < layers[j].buttons.len() && topmost_button(
                layers[j].buttons,
                x,
                y,
                layers[j].buttons.len() as int,
            ) == Some(b) && (#[trigger] layers[j].buttons[b]).enabled
                && layers[j].buttons[b].rect.covers_spec(x, y) && probe_stack(layers, x, y, top)
                == Hit::Button(layers[j].buttons[b].id),
    decreases top,
{
    let hit = layers[top - 1].probe(x, y);
    if hit is Miss {
        lemma_found_button(layers, x, y, top - 1);
    } else {
        let buttons = layers[top - 1].buttons;
        lemma_topmost_button(buttons, x, y, buttons.len() as int);
        let b = topmost_button(buttons, x, y, buttons.len() as int)->0;
        assert(layers[top - 1].buttons[b].enabled);
    }
}

/// The topmost button is under the pointer, and no later button is.
pub proof fn lemma_topmost_button<ButtonId>(
    buttons: Seq<Button<ButtonId>>,
    x: i32,
    y: i32,
    top: int,
)
    requires
        0 <= top <= buttons.len(),
    ensures
        match topmost_button(buttons, x, y, top) {
            Some(b) => {
                &&& 0 <= b < top
                &&& buttons[b].rect.covers_spec(x, y)
                &&& forall|j: int| b < j < top ==> !(#[trigger] buttons[j]).rect.covers_spec(x, y)
            },
            None => forall|j: int| 0 <= j < top ==> !(#[trigger] buttons[j]).rect.covers_spec(x, y),
        },
    decreases top,
{
    if top > 0 && !buttons[top - 1].rect.covers_spec(x, y) {
        lemma_topmost_button(buttons, x, y, top - 1);
    }
}

/// Occlusion: a rectangle or an image under the pointer hides every button
/// of the layers behind it. With such a shape in layer `i`, the stack never
/// misses, and a button it finds stands in layer `i` or in front of it.
pub proof fn lemma_shape_occludes<ButtonId>(layers: Seq<Layer<ButtonId>>, x: i32, y: i32, i: int)
    requires
        0 <= i < layers.len(),
        any_covers(layers[i].rects, x, y) || any_covers(layers[i].images, x, y),
    ensures
        !(probe_stack(layers, x, y, layers.len() as int) is Miss),
        probe_stack(layers, x, y, layers.len() as int) matches Hit::Button(id) ==> exists|
            j: int,
            b: int,
        |
            i <= j < layers.len() && 0 <= b < layers[j].buttons.len() && (
            #[trigger] layers[j].buttons[b]).enabled && layers[j].buttons[b].rect.covers_spec(x, y)
                && layers[j].buttons[b].id == id,
{
    let top = layers.len() as int;
    lemma_probe_stops_at(layers, x, y, i, top);
    let front = layers.subrange(i, top);
    if probe_stack(layers, x, y, top) is Button {
        lemma_found_button(front, x, y, top - i);
        let (j, b) = choose|j: int, b: int|
            0 <= j < top - i && 0 <= b < front[j].buttons.len() && topmost_button(
                front[j].buttons,
                x,
                y,
                front[j].buttons.len() as int,
            ) == Some(b) && (#[trigger] front[j].buttons[b]).enabled
                && front[j].buttons[b].rect.covers_spec(x, y) && probe_stack(front, x, y, top - i)
                == Hit::Button(front[j].buttons[b].id);
        assert(front[j] == layers[i + j]);
        assert(layers[i + j].buttons[b].enabled);
    }
}

/// Occlusion, for a button by its identifier: a button that stands only
/// behind a rectangle or an image under the pointer is never found.
pub proof fn lemma_covered_button_not_found<ButtonId>(
    layers: Seq<Layer<ButtonId>>,
    x: i32,
    y: i32,
    i: int,
    covered: ButtonId,
)
    requires
        0 <= i < layers.len(),
        any_covers(layers[i].rects, x, y) || any_covers(layers[i].images, x, y),
        forall|j: int, b: int|
            i <= j < layers.len() && 0 <= b < layers[j].buttons.len() ==> (
            #[trigger] layers[j].buttons[b]).id != covered,
    ensures
        probe_stack(layers, x, y, layers.len() as int) != Hit::Button(covered),
{
    lemma_shape_occludes(layers, x, y, i);
}

/// Disabled blocks: where the frontmost button under the pointer in layer
/// `i` is disabled and every layer in front of it misses, the search stops
/// there and finds no button, whatever lies behind.
pub proof fn lemma_disabled_button_blocks<ButtonId>(
    layers: Seq<Layer<ButtonId>>,
    x: i32,
    y: i32,
    i: int,
)
    requires
        0 <= i < layers.len(),
        forall|j: int| i < j < layers.len() ==> (#[trigger] layers[j]).probe(x, y) is Miss,
        topmost_button(layers[i].buttons, x, y, layers[i].buttons.len() as int) matches Some(b)
            && !layers[i].buttons[b].enabled,
    ensures
        probe_stack(layers, x, y, layers.len() as int) == Hit::<ButtonId>::Blocked,
{
    lemma_probe_skips_misses(layers, x, y, i, layers.len() as int);
}

/// Layers that miss are passed over.
proof fn lemma_probe_skips_misses<ButtonId>(
    layers: Seq<Layer<ButtonId>>,
    x: i32,
    y: i32,
    i: int,
    top: int,
)
    requires
        0 <= i < top <= layers.len(),
        forall|j: int| i < j < top ==> (#[trigger] layers[j]).probe(x, y) is Miss,
    ensures
        probe_stack(layers, x, y, top) == probe_stack(layers, x, y, i + 1),
    decreases top - i,
{
    if top > i + 1 {
        assert(layers[top - 1].probe(x, y) is Miss);
        lemma_probe_skips_misses(layers, x, y, i, top - 1);
    }
}

/// The layers of a list of overlays, in declaration order.
pub open spec fn overlay_layers<PageId, ButtonId>(
    overlays: Option<Vec<PersistentElements<PageId, ButtonId>>>,
) -> Seq<Layer<ButtonId>> {
    match overlays {
        Some(list) => Seq::new(list@.len(), |i: int| list@[i].layer()),
        None => Seq::empty(),
    }
}

/// The layer of the page, if there is one.
pub open spec fn page_layers<PageId, ButtonId>(page: Option<Page<PageId, ButtonId>>) -> Seq<
    Layer<ButtonId>,
> {
    match page {
        Some(p) => seq![p.layer()],
        None => Seq::empty(),
    }
}

fn covered_by_rect(rects: &Rects, x: i32, y: i32) -> (covered: bool)
    ensures
        covered == any_covers(rects_of(*rects), x, y),
{
    match rects {
        Some(list) => {
            let mut i: usize = list.len();
            while i > 0
                invariant
                    i <= list.len(),
                    forall|j: int|
                        i <= j < list.len() ==> !(#[trigger] rects_of(*rects)[j]).covers_spec(
                            x,
                            y,
                        ),
                    rects == Some(*list),
                decreases i,
            {
                i -= 1;
                if list[i].1.0.covers(x, y) {
                    assert(rects_of(*rects)[i as int].covers_spec(x, y));
                    return true;
                }
            }
            false
        },
        None => false,
    }
}

fn covered_by_image(images: &Images, x: i32, y: i32) -> (covered: bool)
    ensures
        covered == any_covers(images_of(*images), x, y),
{
    match images {
        Some(list) => {
            let mut i: usize = list.len();
            while i > 0
                invariant
                    i <= list.len(),
                    forall|j: int|
                        i <= j < list.len() ==> !(#[trigger] images_of(*images)[j]).covers_spec(
                            x,
                            y,
                        ),
                    images == Some(*list),
                decreases i,
            {
                i -= 1;
                let area = Rect::new(list[i].0.0, list[i].0.1, list[i].1.0, list[i].1.1);
                if area.covers(x, y) {
                    assert(images_of(*images)[i as int].covers_spec(x, y));
                    return true;
                }
            }
            false
        },
        None => false,
    }
}

/// Probes one layer, front to back: buttons, then rectangles, then images.
pub fn probe_layer<ButtonId: Copy>(
    buttons: &Buttons<ButtonId>,
    rects: &Rects,
    images: &Images,
    x: i32,
    y: i32,
) -> (hit: Hit<ButtonId>)
    ensures
        hit == (Layer {
            buttons: buttons_of(*buttons),
            rects: rects_of(*rects),
            images: images_of(*images),
        }).probe(x, y),
{
    if let Some(list) = buttons {
        let mut i: usize = list.len();
        while i > 0
            invariant
                i <= list.len(),
                buttons_of(*buttons) == list@,
                topmost_button(list@, x, y, list@.len() as int) == topmost_button(
                    list@,
                    x,
                    y,
                    i as int,
                ),
            decreases i,
        {
            i -= 1;
            if list[i].rect.covers(x, y) {
                if list[i].enabled {
                    return Hit::Button(list[i].id);
                } else {
                    return Hit::Blocked;
                }
            }
        }
    }
    if covered_by_rect(rects, x, y) {
        return Hit::Blocked;
    }
    if covered_by_image(images, x, y) {
        return Hit::Blocked;
    }
    Hit::Miss
}

/// Which registered builder makes a page: one that takes no argument, or one
/// that reads the ledger's texts, each by its place in its registry.
#[derive(Clone, Copy, Debug, PartialEq, Eq, Structural)]
pub enum PageFactory {
    Plain(usize),
    WithInput(usize),
}

/// A page as its builder made it, with the overlays that the page names, in
/// the order in which it names them.
#[derive(Clone, Debug)]
pub struct BuiltPage<PageId, ButtonId> {
    pub page: Page<PageId, ButtonId>,
    pub persistent_elements: Option<Vec<PersistentElements<PageId, ButtonId>>>,
}

/// Everything about pages that outlives a frame: the input ledger and its
/// flattened texts, the navigation history with its cursor, the registered
/// page identifiers, and what is on screen.
pub struct PageData<PageId, ButtonId> {
    pub vec_user_input: Vec<(PageId, ButtonId, String)>,
    pub vec_user_input_string: Vec<String>,
    pub page_history: (VecDeque<PageId>, usize),
    pub page_linked: Vec<PageId>,
    pub page_w_input_linked: Vec<PageId>,
    pub page_to_render: Option<Page<PageId, ButtonId>>,
    pub persistent_elements_to_render: Option<Vec<PersistentElements<PageId, ButtonId>>>,
    pub forced_persistent_elements: Option<Vec<PersistentElements<PageId, ButtonId>>>,
}

impl<PageId: Copy, ButtonId: Copy> Clone for PageData<PageId, ButtonId> {
    /// A copy of everything but the forced overlays, which a copy starts
    /// without.
    fn clone(&self) -> (copy: Self)
        ensures
            copy.vec_user_input@ == self.vec_user_input@,
            copy.forced_persistent_elements is None,
    {
        Self {
            vec_user_input: snapshot(&self.vec_user_input),
            vec_user_input_string: self.vec_user_input_string.clone(),
            page_history: (self.page_history.0.clone(), self.page_history.1),
            page_linked: self.page_linked.clone(),
            page_w_input_linked: self.page_w_input_linked.clone(),
            page_to_render: self.page_to_render.clone(),
            persistent_elements_to_render: self.persistent_elements_to_render.clone(),
            forced_persistent_elements: None,
        }
    }
}

/// Index of the first occurrence of `id` at or after `from`, or the length
/// of the registry if there is none.
pub open spec fn registered_from<PageId>(registry: Seq<PageId>, id: PageId, from: int) -> int
    decreases registry.len() - from,
{
    if from < 0 || from >= registry.len() {
        registry.len() as int
    } else if registry[from] == id {
        from
    } else {
        registered_from(registry, id, from + 1)
    }
}

/// The builder that makes page `id`: the first plain builder registered for
/// it, else the first builder with input, else none.
pub open spec fn factory_of<PageId>(
    plain: Seq<PageId>,
    with_input: Seq<PageId>,
    id: PageId,
) -> Option<PageFactory> {
    if registered_from(plain, id, 0) < plain.len() {
        Some(PageFactory::Plain(registered_from(plain, id, 0) as usize))
    } else if registered_from(with_input, id, 0) < with_input.len() {
        Some(PageFactory::WithInput(registered_from(with_input, id, 0) as usize))
    } else {
        None
    }
}

fn find_registered<PageId: Copy + Eq>(registry: &Vec<PageId>, id: PageId) -> (k: usize)
    requires
        obeys_concrete_eq::<PageId>(),
    ensures
        k == registered_from(registry@, id, 0),
        k <= registry.len(),
{
    let mut i: usize = 0;
    while i < registry.len()
        invariant
            i <= registry.len(),
            obeys_concrete_eq::<PageId>(),
            registered_from(registry@, id, 0) == registered_from(registry@, id, i as int),
        decreases registry.len() - i,
    {
        proof {
            reveal(obeys_concrete_eq);
        }
        if registry[i] == id {
            return i;
        }
        i += 1;
    }
    i
}

impl<PageId: Copy + Eq, ButtonId: Copy + Eq> PageData<PageId, ButtonId> {
    /// The ledger as contracts see it.
    pub open spec fn ledger(&self) -> LedgerView<PageId, ButtonId> {
        view_of(self.vec_user_input@)
    }

    /// The flattened texts are those of the ledger, in ledger order.
    pub open spec fn texts_in_step(&self) -> bool {
        texts_of(self.vec_user_input_string@) == flattened(self.ledger())
    }

    /// Everything on screen, back to front: the page, then the overlays it
    /// names in declaration order, then the forced overlays in declaration
    /// order.
    pub open spec fn z_stack(&self) -> Seq<Layer<ButtonId>> {
        page_layers(self.page_to_render) + overlay_layers(self.persistent_elements_to_render)
            + overlay_layers(self.forced_persistent_elements)
    }

    /// The button under the pointer: the frontmost layer that the pointer
    /// does not miss decides, and only an enabled button is found.
    pub open spec fn button_at(&self, x: i32, y: i32) -> Option<ButtonId> {
        match probe_stack(self.z_stack(), x, y, self.z_stack().len() as int) {
            Hit::Button(id) => Some(id),
            _ => None,
        }
    }

    /// A fresh `PageData`: empty ledger, nothing registered, nothing on
    /// screen, and the current page as the only history entry.
    pub fn new(app_state: &AppState<PageId, ButtonId>) -> (data: Self)
        ensures
            data.vec_user_input@.len() == 0,
            data.vec_user_input_string@.len() == 0,
            data.page_history.0@ == seq![app_state.current_page],
            data.page_history.1 == 0,
            data.page_linked@.len() == 0,
            data.page_w_input_linked@.len() == 0,
            data.page_to_render is None,
            data.persistent_elements_to_render is None,
            data.forced_persistent_elements is None,
    {
        let mut pages: VecDeque<PageId> = VecDeque::new();
        pages.push_back(app_state.current_page);
        assert(pages@ =~= seq![app_state.current_page]);
        Self {
            vec_user_input: Vec::new(),
            vec_user_input_string: Vec::new(),
            persistent_elements_to_render: None,
            page_history: (pages, 0),
            page_linked: Vec::new(),
            page_w_input_linked: Vec::new(),
            page_to_render: None,
            forced_persistent_elements: None,
        }
    }

    /// Registers the identifiers of the pages that builders exist for: those
    /// built without an argument and those built from the ledger's texts,
    /// each list in the order of its builders. A list that is not given
    /// leaves its registry as it is.
    pub fn populate_rps_data(
        &mut self,
        option_page_linked_received: Option<Vec<PageId>>,
        option_page_w_input_linked_received: Option<Vec<PageId>>,
    )
        ensures
            final(self).page_linked@ == (match option_page_linked_received {
                Some(ids) => ids@,
                None => old(self).page_linked@,
            }),
            final(self).page_w_input_linked@ == (match option_page_w_input_linked_received {
                Some(ids) => ids@,
                None => old(self).page_w_input_linked@,
            }),
            final(self).vec_user_input == old(self).vec_user_input,
            final(self).vec_user_input_string == old(self).vec_user_input_string,
            final(self).page_history == old(self).page_history,
            final(self).page_to_render == old(self).page_to_render,
            final(self).persistent_elements_to_render == old(self).persistent_elements_to_render,
            final(self).forced_persistent_elements == old(self).forced_persistent_elements,
    {
        if let Some(page_linked_received) = option_page_linked_received {
            self.page_linked = page_linked_received;
        }
        if let Some(page_w_input_linked_received) = option_page_w_input_linked_received {
            self.page_w_input_linked = page_w_input_linked_received;
        }
    }

    /// Looks up the builder registered for a page; none if the page was
    /// never registered.
    pub fn locate_factory(&self, page_to_create: PageId) -> (factory: Option<PageFactory>)
        requires
            obeys_concrete_eq::<PageId>(),
        ensures
            factory == factory_of(self.page_linked@, self.page_w_input_linked@, page_to_create),
    {
        let plain = find_registered(&self.page_linked, page_to_create);
        if plain < self.page_linked.len() {
            return Some(PageFactory::Plain(plain));
        }
        let with_input = find_registered(&self.page_w_input_linked, page_to_create);
        if with_input < self.page_w_input_linked.len() {
            return Some(PageFactory::WithInput(with_input));
        }
        None
    }

    /// Everything but the ledger and its flattened texts is as in `other`.
    pub open spec fn same_but_ledger(&self, other: &Self) -> bool {
        *self == (PageData {
            vec_user_input: self.vec_user_input,
            vec_user_input_string: self.vec_user_input_string,
            ..*other
        })
    }

    /// The ledger after each page from `from` on has been given the entries
    /// it asks for.
    pub open spec fn ensured_for_pages(
        ledger: LedgerView<PageId, ButtonId>,
        pages: Seq<Page<PageId, ButtonId>>,
        from: int,
    ) -> LedgerView<PageId, ButtonId>
        decreases pages.len() - from,
    {
        if from < 0 || from >= pages.len() {
            ledger
        } else {
            Self::ensured_for_pages(
                match pages[from].has_userinput {
                    Some(required) => ensured(ledger, required@),
                    None => ledger,
                },
                pages,
                from + 1,
            )
        }
    }

    /// An independent copy of the ledger.
    pub fn snapshot(&self) -> (copy: Vec<(PageId, ButtonId, String)>)
        ensures
            copy@ == self.vec_user_input@,
    {
        snapshot(&self.vec_user_input)
    }

    /// Replaces the ledger wholesale and brings the flattened texts in step.
    pub fn restore(&mut self, snapshot: Vec<(PageId, ButtonId, String)>)
        ensures
            final(self).vec_user_input == snapshot,
            final(self).texts_in_step(),
            final(self).same_but_ledger(old(self)),
    {
        self.vec_user_input = snapshot;
        self.update_vec_user_input_string();
    }

    /// Takes a page made by the builder registered for `page_to_create`,
    /// together with the overlays that the page names. Without a registered
    /// builder, or without a page, nothing is created and nothing changes.
    /// A page that names overlays puts them on screen; one that names none
    /// leaves the overlays as they are.
    pub fn create_page_from_id(
        &mut self,
        page_to_create: PageId,
        built: Option<BuiltPage<PageId, ButtonId>>,
    ) -> (created: Option<Page<PageId, ButtonId>>)
        requires
            obeys_concrete_eq::<PageId>(),
        ensures
            created == (if factory_of(
                old(self).page_linked@,
                old(self).page_w_input_linked@,
                page_to_create,
            ) is Some {
                match built {
                    Some(b) => Some(b.page),
                    None => None,
                }
            } else {
                None
            }),
            *final(self) == (PageData {
                persistent_elements_to_render: match (created, built) {
                    (Some(page), Some(b)) if page.has_persistent_elements is Some =>
                        b.persistent_elements,
                    _ => old(self).persistent_elements_to_render,
                },
                ..*old(self)
            }),
    {
        if self.locate_factory(page_to_create).is_none() {
            return None;
        }
        match built {
            Some(b) => {
                if b.page.has_persistent_elements.is_some() {
                    self.persistent_elements_to_render = b.persistent_elements;
                }
                Some(b.page)
            },
            None => None,
        }
    }

    /// Populate the ledger with the entries that a page asks for: an empty
    /// entry for every pair that has none. Entries that exist are never
    /// removed or reset. A page that asks for none changes nothing.
    pub fn push_vec_user_input_per_page(&mut self, page: &mut Page<PageId, ButtonId>)
        requires
            ids_comparable::<PageId, ButtonId>(),
        ensures
            *final(page) == *old(page),
            final(self).same_but_ledger(old(self)),
            match old(page).has_userinput {
                Some(required) => {
                    &&& final(self).ledger() == ensured(old(self).ledger(), required@)
                    &&& final(self).texts_in_step()
                },
                None => *final(self) == *old(self),
            },
            final(self).vec_user_input@.len() >= old(self).vec_user_input@.len(),
            final(self).vec_user_input@.subrange(0, old(self).vec_user_input@.len() as int)
                == old(self).vec_user_input@,
            unique_keys(old(self).ledger()) ==> unique_keys(final(self).ledger()),
    {
        if let Some(has_userinput) = &page.has_userinput {
            let _ = ensure_entries(&mut self.vec_user_input, has_userinput);
            self.update_vec_user_input_string();
        } else {
            assert(self.vec_user_input@.subrange(0, self.vec_user_input@.len() as int)
                =~= self.vec_user_input@);
        }
    }

    /// Populate the ledger with the entries that each of the given pages
    /// asks for, in order; the flattened texts are renewed if an entry was
    /// added.
    pub fn push_vec_user_input_per_vec(&mut self, pages: &Vec<Page<PageId, ButtonId>>)
        requires
            ids_comparable::<PageId, ButtonId>(),
        ensures
            final(self).same_but_ledger(old(self)),
            final(self).ledger() == Self::ensured_for_pages(old(self).ledger(), pages@, 0),
            final(self).vec_user_input@.len() >= old(self).vec_user_input@.len(),
            final(self).vec_user_input@.subrange(0, old(self).vec_user_input@.len() as int)
                == old(self).vec_user_input@,
            unique_keys(old(self).ledger()) ==> unique_keys(final(self).ledger()),
            if final(self).vec_user_input@.len() != old(self).vec_user_input@.len() {
                final(self).texts_in_step()
            } else {
                final(self).vec_user_input_string == old(self).vec_user_input_string
            },
    {
        let ghost start = self.vec_user_input@;
        let mut changed = false;
        let mut i: usize = 0;
        assert(start.subrange(0, start.len() as int) =~= start);
        while i < pages.len()
            invariant
                i <= pages.len(),
                ids_comparable::<PageId, ButtonId>(),
                self.same_but_ledger(old(self)),
                self.vec_user_input_string == old(self).vec_user_input_string,
                self.vec_user_input@.len() >= start.len(),
                self.vec_user_input@.subrange(0, start.len() as int) == start,
                changed == (self.vec_user_input@.len() != start.len()),
                unique_keys(view_of(start)) ==> unique_keys(self.ledger()),
                Self::ensured_for_pages(view_of(start), pages@, 0) == Self::ensured_for_pages(
                    self.ledger(),
                    pages@,
                    i as int,
                ),
            decreases pages.len() - i,
        {
            if let Some(has_userinput) = &pages[i].has_userinput {
                let ghost before = self.vec_user_input@;
                let added = ensure_entries(&mut self.vec_user_input, has_userinput);
                proof {
                    assert(self.vec_user_input@.subrange(0, start.len() as int) =~= start) by {
                        assert forall|j: int| 0 <= j < start.len() implies self.vec_user_input@[j]
                            == start[j] by {
                            assert(self.vec_user_input@.subrange(0, before.len() as int)[j]
                                == self.vec_user_input@[j]);
                            assert(before.subrange(0, start.len() as int)[j] == before[j]);
                        }
                    }
                }
                if added {
                    changed = true;
                }
            }
            i += 1;
        }
        if changed {
            self.update_vec_user_input_string();
        }
    }

    /// Puts the current page on screen. The history is first cut to its
    /// limit. `built` is the page made by the builder registered for the
    /// current page, with the overlays it names. If there is such a page,
    /// the ledger gets the entries it asks for and its overlays replace
    /// those on screen (none, if it names none); if there is not, the
    /// screen has no page and the overlays stay.
    pub fn create_current_page(
        &mut self,
        app_state: &mut AppState<PageId, ButtonId>,
        built: Option<BuiltPage<PageId, ButtonId>>,
    )
        requires
            ids_comparable::<PageId, ButtonId>(),
        ensures
            *final(app_state) == *old(app_state),
            final(self).page_linked == old(self).page_linked,
            final(self).page_w_input_linked == old(self).page_w_input_linked,
            final(self).forced_persistent_elements == old(self).forced_persistent_elements,
            final(self).page_history.0@ == most_recent(
                old(self).page_history.0@,
                HISTORY_LIMIT as int,
            ),
            final(self).page_history.1 == shifted_cursor(
                old(self).page_history.1 as int,
                old(self).page_history.0@.len() - final(self).page_history.0@.len(),
            ),
            final(self).page_to_render == (if factory_of(
                old(self).page_linked@,
                old(self).page_w_input_linked@,
                old(app_state).current_page,
            ) is Some {
                match built {
                    Some(b) => Some(b.page),
                    None => None,
                }
            } else {
                None
            }),
            final(self).persistent_elements_to_render == (match (
                final(self).page_to_render,
                built,
            ) {
                (Some(page), Some(b)) => if page.has_persistent_elements is Some {
                    b.persistent_elements
                } else {
                    None
                },
                _ => old(self).persistent_elements_to_render,
            }),
            match final(self).page_to_render {
                Some(Page { has_userinput: Some(required), .. }) => {
                    &&& final(self).ledger() == ensured(old(self).ledger(), required@)
                    &&& final(self).texts_in_step()
                },
                _ => {
                    &&& final(self).vec_user_input == old(self).vec_user_input
                    &&& final(self).vec_user_input_string == old(self).vec_user_input_string
                },
            },
            unique_keys(old(self).ledger()) ==> unique_keys(final(self).ledger()),
    {
        proof {
            reveal(obeys_concrete_eq);
        }
        trim_history(&mut self.page_history);
        let mut page_to_render = self.create_page_from_id(app_state.current_page, built);
        match page_to_render {
            Some(mut page) => {
                self.push_vec_user_input_per_page(&mut page);
                if page.has_persistent_elements.is_none() {
                    self.persistent_elements_to_render = None;
                }
                self.page_to_render = Some(page);
            },
            None => {
                self.page_to_render = None;
            },
        }
    }

    /// Gives entry `k` of the ledger a new text. The flattened texts are
    /// not renewed.
    pub fn set_entry_text(&mut self, k: usize, text: String)
        requires
            k < old(self).vec_user_input@.len(),
        ensures
            final(self).ledger() == old(self).ledger().update(
                k as int,
                (old(self).ledger()[k as int].0, old(self).ledger()[k as int].1, text@),
            ),
            final(self).vec_user_input@.len() == old(self).vec_user_input@.len(),
            final(self).vec_user_input_string == old(self).vec_user_input_string,
            final(self).same_but_ledger(old(self)),
    {
        let page = self.vec_user_input[k].0;
        let button = self.vec_user_input[k].1;
        self.vec_user_input.set(k, (page, button, text));
        assert(self.ledger() =~= old(self).ledger().update(
            k as int,
            (old(self).ledger()[k as int].0, old(self).ledger()[k as int].1, text@),
        ));
    }

    /// Update `vec_user_input_string` from the ledger.
    pub fn update_vec_user_input_string(&mut self)
        ensures
            final(self).texts_in_step(),
            *final(self) == (PageData {
                vec_user_input_string: final(self).vec_user_input_string,
                ..*old(self)
            }),
    {
        self.vec_user_input_string = flatten(&self.vec_user_input);
    }

    /// Returns the button under the pointer, if any, respecting visual
    /// layering: forced overlays are in front of the page's overlays, these
    /// in front of the page, and within each list the most recently
    /// declared is in front. A disabled button, a rectangle or an image
    /// under the pointer ends the search without a button.
    pub fn page_button_at(&self, mouse_x: i32, mouse_y: i32) -> (found: Option<ButtonId>)
        ensures
            found == self.button_at(mouse_x, mouse_y),
    {
        let ghost stack = self.z_stack();
        let ghost page_count: int = page_layers(self.page_to_render).len() as int;
        let ghost regular_count: int = overlay_layers(
            self.persistent_elements_to_render,
        ).len() as int;
        if let Some(persistents) = &self.forced_persistent_elements {
            let mut i: usize = persistents.len();
            while i > 0
                invariant
                    i <= persistents.len(),
                    stack == self.z_stack(),
                    self.forced_persistent_elements == Some(*persistents),
                    page_count == page_layers(self.page_to_render).len(),
                    regular_count == overlay_layers(self.persistent_elements_to_render).len(),
                    probe_stack(stack, mouse_x, mouse_y, stack.len() as int) == probe_stack(
                        stack,
                        mouse_x,
                        mouse_y,
                        page_count + regular_count + i,
                    ),
                decreases i,
            {
                i -= 1;
                let persistent = &persistents[i];
                assert(stack[page_count + regular_count + i] == persistent.layer());
                match probe_layer(
                    &persistent.buttons,
                    &persistent.rects,
                    &persistent.images,
                    mouse_x,
                    mouse_y,
                ) {
                    Hit::Button(id) => {
                        return Some(id);
                    },
                    Hit::Blocked => {
                        return None;
                    },
                    Hit::Miss => {},
                }
            }
        }
        assert(probe_stack(stack, mouse_x, mouse_y, stack.len() as int) == probe_stack(
            stack,
            mouse_x,
            mouse_y,
            page_count + regular_count,
        ));
        if let Some(persistents) = &self.persistent_elements_to_render {
            let mut i: usize = persistents.len();
            while i > 0
                invariant
                    i <= persistents.len(),
                    stack == self.z_stack(),
                    self.persistent_elements_to_render == Some(*persistents),
                    page_count == page_layers(self.page_to_render).len(),
                    probe_stack(stack, mouse_x, mouse_y, stack.len() as int) == probe_stack(
                        stack,
                        mouse_x,
                        mouse_y,
                        page_count + i,
                    ),
                decreases i,
            {
                i -= 1;
                let persistent = &persistents[i];
                assert(stack[page_count + i] == persistent.layer());
                match probe_layer(
                    &persistent.buttons,
                    &persistent.rects,
                    &persistent.images,
                    mouse_x,
                    mouse_y,
                ) {
                    Hit::Button(id) => {
                        return Some(id);
                    },
                    Hit::Blocked => {
                        return None;
                    },
                    Hit::Miss => {},
                }
            }
        }
        assert(probe_stack(stack, mouse_x, mouse_y, stack.len() as int) == probe_stack(
            stack,
            mouse_x,
            mouse_y,
            page_count,
        ));
        if let Some(page) = &self.page_to_render {
            assert(stack[0] == page.layer());
            assert(probe_stack(stack, mouse_x, mouse_y, 0) is Miss);
            match probe_layer(&page.buttons, &page.rects, &page.images, mouse_x, mouse_y) {
                Hit::Button(id) => {
                    return Some(id);
                },
                _ => {
                    return None;
                },
            }
        }
        None
    }
}

} // verus!
