//! The pages of the demonstration application. Geometry and styling of a
//! page depend on nothing; only the labels that show ledger texts vary.

use crate::geometry::{get_center, Color, Rect, WINDOW_DEFAULT_SCALE};
use crate::misc::GetOrCreate;
use crate::page_system::{Button, Page, PersistentElements};
use crate::ui::{ButtonId, PageId};
use vstd::prelude::*;
use vstd::string::StringExecFns;

verus! {

/// The background of every page.
pub open spec fn background_color_spec() -> Color {
    Color { r: 30, g: 30, b: 46, a: 255 }
}

/// The background of every page.
#[verifier::when_used_as_spec(background_color_spec)]
pub fn background_color() -> (color: Color)
    ensures
        color == background_color_spec(),
{
    Color::RGB(30, 30, 46)
}

/// The colour of text on buttons.
pub open spec fn text_color_spec() -> Color {
    Color { r: 255, g: 255, b: 255, a: 255 }
}

/// The colour of text on buttons.
#[verifier::when_used_as_spec(text_color_spec)]
pub fn text_color() -> (color: Color)
    ensures
        color == text_color_spec(),
{
    Color::RGB(255, 255, 255)
}

/// The colour of explanatory text.
pub open spec fn subtext_color_spec() -> Color {
    Color { r: 186, g: 194, b: 222, a: 255 }
}

/// The colour of explanatory text.
#[verifier::when_used_as_spec(subtext_color_spec)]
pub fn subtext_color() -> (color: Color)
    ensures
        color == subtext_color_spec(),
{
    Color::RGB(186, 194, 222)
}

/// Purple.
pub open spec fn purple_color_spec() -> Color {
    Color { r: 203, g: 166, b: 247, a: 255 }
}

/// Purple.
#[verifier::when_used_as_spec(purple_color_spec)]
pub fn purple_color() -> (color: Color)
    ensures
        color == purple_color_spec(),
{
    Color::RGB(203, 166, 247)
}

/// Pink.
pub open spec fn pink_color_spec() -> Color {
    Color { r: 243, g: 139, b: 168, a: 255 }
}

/// Pink.
#[verifier::when_used_as_spec(pink_color_spec)]
pub fn pink_color() -> (color: Color)
    ensures
        color == pink_color_spec(),
{
    Color::RGB(243, 139, 168)
}

/// Orange.
pub open spec fn orange_color_spec() -> Color {
    Color { r: 250, g: 179, b: 135, a: 255 }
}

/// Orange.
#[verifier::when_used_as_spec(orange_color_spec)]
pub fn orange_color() -> (color: Color)
    ensures
        color == orange_color_spec(),
{
    Color::RGB(250, 179, 135)
}

/// The black of bars and of typed text.
pub open spec fn black_color_spec() -> Color {
    Color { r: 17, g: 17, b: 27, a: 255 }
}

/// The black of bars and of typed text.
#[verifier::when_used_as_spec(black_color_spec)]
pub fn black_color() -> (color: Color)
    ensures
        color == black_color_spec(),
{
    Color::RGB(17, 17, 27)
}

/// Red.
pub open spec fn red_color_spec() -> Color {
    Color { r: 255, g: 0, b: 0, a: 255 }
}

/// Red.
#[verifier::when_used_as_spec(red_color_spec)]
pub fn red_color() -> (color: Color)
    ensures
        color == red_color_spec(),
{
    Color::RGB(255, 0, 0)
}

/// A text label with the given size, position, content and colour.
pub open spec fn is_label(
    label: (u32, (i32, i32), String, Color),
    size: u32,
    x: i32,
    y: i32,
    content: Seq<char>,
    color: Color,
) -> bool {
    &&& label.0 == size
    &&& label.1 == (x, y)
    &&& label.2@ == content
    &&& label.3 == color
}

/// An enabled button without transition.
pub open spec fn plain_button(color: Color, rect: Rect, radius: i32, id: ButtonId) -> Button<
    ButtonId,
> {
    Button { enabled: true, color, rect, radius, id, has_transition: None }
}

/// The ledger text at `index`, or no text where the list is shorter.
pub open spec fn text_at(texts: Seq<String>, index: int) -> Seq<char> {
    if 0 <= index < texts.len() {
        texts[index]@
    } else {
        Seq::empty()
    }
}

/// The navigation bar: a black strip over the whole width with a button for
/// each main page, their labels, and an image from the cache directory.
pub open spec fn is_persistent_page(
    bar: PersistentElements<PageId, ButtonId>,
    cache_dir: Seq<char>,
) -> bool {
    &&& bar.id == PageId::Persistent
    &&& bar.background_color is None
    &&& bar.rects matches Some(rects) && rects@ =~= seq![
        (black_color(), (Rect { x: 0, y: 0, w: 1920, h: 100 }, 0i32)),
    ]
    &&& bar.buttons matches Some(buttons) && buttons@ =~= seq![
        plain_button(
            pink_color(),
            Rect { x: 660, y: 10, w: 200, h: 75 },
            5,
            ButtonId::ButtonPage1,
        ),
        plain_button(
            pink_color(),
            Rect { x: 1060, y: 10, w: 200, h: 75 },
            5,
            ButtonId::ButtonPage2,
        ),
    ]
    &&& bar.texts matches Some(texts) && texts@.len() == 2 && is_label(
        texts@[0],
        17,
        669,
        34,
        "Page 1"@,
        text_color(),
    ) && is_label(texts@[1], 17, 1069, 34, "Page 2"@, text_color())
    &&& bar.images matches Some(images) && images@.len() == 1 && images@[0].0 == (10i32, 10i32)
        && images@[0].1 == (50u32, 50u32) && images@[0].2@ =~= cache_dir + "/"@
        + "example_1.jpg"@
}

/// The first page: two rectangles and two buttons that take text, each
/// with a label that shows the ledger text of its place.
pub open spec fn is_page_1(page: Page<PageId, ButtonId>, user_input: Seq<String>) -> bool {
    &&& page.id == PageId::Page1
    &&& page.background_color == Some(background_color())
    &&& page.has_persistent_elements matches Some(overlays) && overlays@ =~= seq![
        PageId::Persistent,
    ]
    &&& page.has_userinput matches Some(required) && required@ =~= seq![
        (PageId::Page1, ButtonId::ButtonPurpleInputStartPage1),
        (PageId::Page1, ButtonId::ButtonRedInputStartPage1),
    ]
    &&& page.rects matches Some(rects) && rects@ =~= seq![
        (red_color(), (Rect { x: 860, y: 660, w: 200, h: 200 }, 100i32)),
        (orange_color(), (Rect { x: 560, y: 440, w: 800, h: 200 }, 0i32)),
    ]
    &&& page.buttons matches Some(buttons) && buttons@ =~= seq![
        plain_button(
            purple_color(),
            Rect { x: 660, y: 310, w: 600, h: 100 },
            5,
            ButtonId::ButtonPurpleInputStartPage1,
        ),
        plain_button(
            red_color(),
            Rect { x: 660, y: 880, w: 600, h: 100 },
            20,
            ButtonId::ButtonRedInputStartPage1,
        ),
    ]
    &&& page.texts matches Some(texts) && texts@.len() == 4 && is_label(
        texts@[0],
        18,
        725,
        526,
        "Random Orange Rectangle, Because I Can :)"@,
        subtext_color(),
    ) && is_label(
        texts@[1],
        18,
        735,
        285,
        "Click the Button To Start Getting Input"@,
        subtext_color(),
    ) && is_label(texts@[2], 25, 675, 345, text_at(user_input, 0), black_color())
        && is_label(texts@[3], 25, 675, 915, text_at(user_input, 1), black_color())
    &&& page.images is None
}

/// The second page: a button that leads to the subpage and a button that
/// takes text, with a label that shows the ledger text of its place.
pub open spec fn is_page_2(page: Page<PageId, ButtonId>, user_input: Seq<String>) -> bool {
    &&& page.id == PageId::Page2
    &&& page.background_color == Some(background_color())
    &&& page.has_persistent_elements matches Some(overlays) && overlays@ =~= seq![
        PageId::Persistent,
    ]
    &&& page.has_userinput matches Some(required) && required@ =~= seq![
        (PageId::Page2, ButtonId::ButtonPurpleInputStartPage2),
    ]
    &&& page.rects is None
    &&& page.buttons matches Some(buttons) && buttons@ =~= seq![
        plain_button(
            purple_color(),
            Rect { x: 100, y: 150, w: 235, h: 40 },
            20,
            ButtonId::ButtonSubPage,
        ),
        plain_button(
            purple_color(),
            Rect { x: 710, y: 490, w: 500, h: 100 },
            20,
            ButtonId::ButtonPurpleInputStartPage2,
        ),
    ]
    &&& page.texts matches Some(texts) && texts@.len() == 2 && is_label(
        texts@[0],
        18,
        110,
        157,
        "Go To subpage_page2"@,
        text_color(),
    ) && is_label(texts@[1], 18, 720, 497, text_at(user_input, 2), text_color())
    &&& page.images is None
}

/// The subpage: a button that leads back, a line of text and an image from
/// the cache directory; it names no overlay.
pub open spec fn is_subpage_page2(page: Page<PageId, ButtonId>, cache_dir: Seq<char>) -> bool {
    &&& page.id == PageId::Page2SubPage
    &&& page.background_color == Some(background_color())
    &&& page.has_persistent_elements is None
    &&& page.has_userinput is None
    &&& page.rects is None
    &&& page.buttons matches Some(buttons) && buttons@ =~= seq![
        plain_button(pink_color(), Rect { x: 20, y: 20, w: 50, h: 40 }, 0, ButtonId::ButtonBack),
    ]
    &&& page.texts matches Some(texts) && texts@.len() == 2 && is_label(
        texts@[0],
        18,
        950,
        400,
        "Random Text, Because I Can :)"@,
        subtext_color(),
    ) && is_label(texts@[1], 18, 30, 27, "<-"@, text_color())
    &&& page.images matches Some(images) && images@.len() == 1 && images@[0].0 == (
        500i32,
        500i32,
    ) && images@[0].1 == (300u32, 300u32) && images@[0].2@ =~= cache_dir + "/"@
        + "example_2.jpg"@
}

fn make_button(color: Color, rect: Rect, radius: i32, id: ButtonId) -> (button: Button<ButtonId>)
    ensures
        button == plain_button(color, rect, radius, id),
{
    Button { enabled: true, color, rect, radius, id, has_transition: None }
}

fn make_label(size: u32, x: i32, y: i32, content: &str, color: Color) -> (label: (
    u32,
    (i32, i32),
    String,
    Color,
))
    ensures
        is_label(label, size, x, y, content@, color),
{
    (size, (x, y), String::from_str(content), color)
}

fn cached_image(cache_dir: &str, name: &str) -> (path: String)
    ensures
        path@ == cache_dir@ + "/"@ + name@,
{
    let mut path = String::from_str(cache_dir);
    path.append("/");
    path.append(name);
    path
}

/// The navigation bar at the top of the screen: a black strip over the
/// whole width with a button for each main page and an image from the
/// cache directory.
pub fn persistent_page(cache_dir: &str) -> (bar: PersistentElements<PageId, ButtonId>)
    ensures
        is_persistent_page(bar, cache_dir@),
{
    let padding_x: i32 = 200;
    let window_center = get_center((200, 75), WINDOW_DEFAULT_SCALE);

    let all_rects = vec![(black_color(), (Rect::new(0, 0, WINDOW_DEFAULT_SCALE.0, 100), 0i32))];

    let left = Rect::new(window_center.pos_x - padding_x, 10, window_center.w, window_center.h);
    let right = Rect::new(window_center.pos_x + padding_x, 10, window_center.w, window_center.h);
    let all_buttons = vec![
        make_button(pink_color(), left, 5, ButtonId::ButtonPage1),
        make_button(pink_color(), right, 5, ButtonId::ButtonPage2),
    ];

    let all_text = vec![
        make_label(
            17,
            all_buttons[0].rect.x + 9,
            all_buttons[0].rect.y + 24,
            "Page 1",
            text_color(),
        ),
        make_label(
            17,
            all_buttons[1].rect.x + 9,
            all_buttons[1].rect.y + 24,
            "Page 2",
            text_color(),
        ),
    ];

    let all_images = vec![
        ((10i32, 10i32), (50u32, 50u32), cached_image(cache_dir, "example_1.jpg")),
    ];

    PersistentElements {
        id: PageId::Persistent,
        background_color: None,
        rects: Some(all_rects),
        buttons: Some(all_buttons),
        texts: Some(all_text),
        images: Some(all_images),
    }
}

/// The first page: two rectangles and two buttons that take text, each
/// with a label that shows what has been typed into it so far. The page
/// names the navigation bar as its overlay.
pub fn page_1(user_input: &mut Vec<String>) -> (page: Page<PageId, ButtonId>)
    ensures
        *final(user_input) == *old(user_input),
        is_page_1(page, old(user_input)@),
{
    let padding_y: i32 = 20;
    let red_rect_data = get_center((200, 200), WINDOW_DEFAULT_SCALE);
    let orange_rect_data = get_center((800, 200), WINDOW_DEFAULT_SCALE);
    let purple_button_data = get_center((600, 100), WINDOW_DEFAULT_SCALE);

    let red_rect = Rect::new(
        red_rect_data.pos_x,
        red_rect_data.pos_y + (200 + padding_y),
        red_rect_data.w,
        red_rect_data.h,
    );
    let orange_rect = Rect::new(
        orange_rect_data.pos_x,
        orange_rect_data.pos_y,
        orange_rect_data.w,
        orange_rect_data.h,
    );
    let all_rects = vec![(red_color(), (red_rect, 100i32)), (orange_color(), (orange_rect, 0i32))];

    let purple_rect = Rect::new(
        purple_button_data.pos_x,
        purple_button_data.pos_y - (200 - padding_y),
        purple_button_data.w,
        purple_button_data.h,
    );
    let red_button_rect = Rect::new(
        purple_button_data.pos_x,
        red_rect.y + red_rect.h + padding_y,
        purple_button_data.w,
        purple_button_data.h,
    );
    let all_buttons = vec![
        make_button(purple_color(), purple_rect, 5, ButtonId::ButtonPurpleInputStartPage1),
        make_button(red_color(), red_button_rect, 20, ButtonId::ButtonRedInputStartPage1),
    ];

    let hint_y: i32 = purple_rect.y - 25;
    let first_input = user_input.get_or_create(0);
    let second_input = user_input.get_or_create(1);
    let all_text = vec![
        make_label(
            18,
            orange_rect.x + 165,
            orange_rect.y + 86,
            "Random Orange Rectangle, Because I Can :)",
            subtext_color(),
        ),
        make_label(
            18,
            purple_rect.x + 75,
            hint_y,
            "Click the Button To Start Getting Input",
            subtext_color(),
        ),
        make_label(
            25,
            all_buttons[0].rect.x + 15,
            all_buttons[0].rect.y + 35,
            first_input.as_str(),
            black_color(),
        ),
        make_label(
            25,
            all_buttons[1].rect.x + 15,
            all_buttons[1].rect.y + 35,
            second_input.as_str(),
            black_color(),
        ),
    ];

    Page {
        has_userinput: Some(
            vec![
                (PageId::Page1, ButtonId::ButtonPurpleInputStartPage1),
                (PageId::Page1, ButtonId::ButtonRedInputStartPage1),
            ],
        ),
        has_persistent_elements: Some(vec![PageId::Persistent]),
        id: PageId::Page1,
        background_color: Some(background_color()),
        rects: Some(all_rects),
        buttons: Some(all_buttons),
        texts: Some(all_text),
        images: None,
    }
}

/// The second page: a button that leads to the subpage and a button that
/// takes text, with a label that shows what has been typed so far.
pub fn page_2(user_input: &mut Vec<String>) -> (page: Page<PageId, ButtonId>)
    ensures
        *final(user_input) == *old(user_input),
        is_page_2(page, old(user_input)@),
{
    let get_input_button_data = get_center((500, 100), WINDOW_DEFAULT_SCALE);

    let all_buttons = vec![
        make_button(purple_color(), Rect::new(100, 150, 235, 40), 20, ButtonId::ButtonSubPage),
        make_button(
            purple_color(),
            Rect::new(
                get_input_button_data.pos_x,
                get_input_button_data.pos_y,
                get_input_button_data.w,
                get_input_button_data.h,
            ),
            20,
            ButtonId::ButtonPurpleInputStartPage2,
        ),
    ];

    let third_input = user_input.get_or_create(2);
    let all_text = vec![
        make_label(
            18,
            all_buttons[0].rect.x + 10,
            all_buttons[0].rect.y + 7,
            "Go To subpage_page2",
            text_color(),
        ),
        make_label(
            18,
            all_buttons[1].rect.x + 10,
            all_buttons[1].rect.y + 7,
            third_input.as_str(),
            text_color(),
        ),
    ];

    Page {
        has_userinput: Some(vec![(PageId::Page2, ButtonId::ButtonPurpleInputStartPage2)]),
        has_persistent_elements: Some(vec![PageId::Persistent]),
        id: PageId::Page2,
        background_color: Some(background_color()),
        rects: None,
        buttons: Some(all_buttons),
        texts: Some(all_text),
        images: None,
    }
}

/// The subpage of the second page: a button that leads back, a line of
/// text and an image from the cache directory. It names no overlay.
pub fn subpage_page2(cache_dir: &str) -> (page: Page<PageId, ButtonId>)
    ensures
        is_subpage_page2(page, cache_dir@),
{
    let all_buttons = vec![
        make_button(pink_color(), Rect::new(20, 20, 50, 40), 0, ButtonId::ButtonBack),
    ];

    let all_text = vec![
        make_label(18, 950, 400, "Random Text, Because I Can :)", subtext_color()),
        make_label(
            18,
            all_buttons[0].rect.x + 10,
            all_buttons[0].rect.y + 7,
            "<-",
            text_color(),
        ),
    ];

    let all_images = vec![
        ((500i32, 500i32), (300u32, 300u32), cached_image(cache_dir, "example_2.jpg")),
    ];

    Page {
        has_userinput: None,
        has_persistent_elements: None,
        id: PageId::Page2SubPage,
        background_color: Some(background_color()),
        rects: None,
        buttons: Some(all_buttons),
        texts: Some(all_text),
        images: Some(all_images),
    }
}

/// Builds the page with the given identifier from the ledger's texts. The
/// overlay and the place without a page have no page of their own.
pub fn create_from_id(id: PageId, user_input: &mut Vec<String>, cache_dir: &str) -> (page: Option<
    Page<PageId, ButtonId>,
>)
    ensures
        *final(user_input) == *old(user_input),
        match id {
            PageId::Page1 => page matches Some(built) && is_page_1(built, old(user_input)@),
            PageId::Page2 => page matches Some(built) && is_page_2(built, old(user_input)@),
            PageId::Page2SubPage => page matches Some(built) && is_subpage_page2(
                built,
                cache_dir@,
            ),
            PageId::Persistent => page is None,
            PageId::NoPage => page is None,
        },
{
    match id {
        PageId::Page1 => Some(page_1(user_input)),
        PageId::Page2 => Some(page_2(user_input)),
        PageId::Page2SubPage => Some(subpage_page2(cache_dir)),
        PageId::Persistent => None,
        PageId::NoPage => None,
    }
}

} // verus!
