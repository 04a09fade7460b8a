//! The navigation bar: a styled container that can be pinned to the top or
//! the bottom of the page and that folds its menu away on narrow screens.

use crate::component::reconfigure;
use crate::styles::{get_palette, get_style, palette_class, push_class, style_class, with_class, Palette, Style};
use crate::utils::{
    lemma_last_write_wins, write_style, write_styles, StyleRegistry, StyleTable, StyleWrite,
};
use vstd::prelude::*;
use vstd::std_specs::cmp::PartialEqSpecImpl;
use vstd::std_specs::convert::FromSpecImpl;
use vstd::string::StringExecFns;

verus! {

/// Where the bar is pinned.
#[derive(Clone, Copy, Debug, PartialEq, Eq, Structural)]
pub enum Fixed {
    /// Not pinned: the bar takes the position of its surroundings.
    Inherit,
    Top,
    Bottom,
}

/// The transitions the bar supports.
#[derive(Clone, Copy, Debug, PartialEq, Eq, Structural)]
pub enum Msg {
    /// Show the menu if it is hidden, hide it if it is shown.
    TroggleMenu,
}

/// Configuration of the bar as its parent writes it.
#[derive(Debug)]
pub struct Props {
    /// Palette of the bar. Default `Palette::Standard`.
    pub navbar_type: Palette,
    /// Style of the bar. Default `Style::Regular`.
    pub navbar_style: Style,
    /// Custom classes. Default empty.
    pub class_name: String,
    /// Where the bar is pinned. Default `Fixed::Top`.
    pub fixed: Fixed,
}

/// Configuration of the bar as it keeps it: palette and style already
/// turned into their class tokens.
#[derive(Debug)]
pub struct NavbarProps {
    pub navbar_type: String,
    pub navbar_style: String,
    pub class_name: String,
    pub fixed: Fixed,
}

/// Mathematical content of [`Props`].
pub struct PropsView {
    pub navbar_type: Palette,
    pub navbar_style: Style,
    pub class_name: Seq<char>,
    pub fixed: Fixed,
}

/// Mathematical content of [`NavbarProps`].
pub struct NavbarConfig {
    pub navbar_type: Seq<char>,
    pub navbar_style: Seq<char>,
    pub class_name: Seq<char>,
    pub fixed: Fixed,
}

impl View for Props {
    type V = PropsView;

    open spec fn view(&self) -> PropsView {
        PropsView {
            navbar_type: self.navbar_type,
            navbar_style: self.navbar_style,
            class_name: self.class_name@,
            fixed: self.fixed,
        }
    }
}

impl View for NavbarProps {
    type V = NavbarConfig;

    open spec fn view(&self) -> NavbarConfig {
        NavbarConfig {
            navbar_type: self.navbar_type@,
            navbar_style: self.navbar_style@,
            class_name: self.class_name@,
            fixed: self.fixed,
        }
    }
}

/// The configuration a bar keeps for the configuration its parent wrote.
pub open spec fn derived_config(props: PropsView) -> NavbarConfig {
    NavbarConfig {
        navbar_type: palette_class(props.navbar_type),
        navbar_style: style_class(props.navbar_style),
        class_name: props.class_name,
        fixed: props.fixed,
    }
}

impl Default for Props {
    fn default() -> (props: Props)
        ensures
            props@ == (PropsView {
                navbar_type: Palette::Standard,
                navbar_style: Style::Regular,
                class_name: Seq::<char>::empty(),
                fixed: Fixed::Top,
            }),
    {
        Props {
            navbar_type: Palette::Standard,
            navbar_style: Style::Regular,
            class_name: String::new(),
            fixed: Fixed::Top,
        }
    }
}

impl From<Props> for NavbarProps {
    fn from(props: Props) -> (derived: NavbarProps)
        ensures
            derived@ == derived_config(props@),
    {
        NavbarProps {
            navbar_type: get_palette(props.navbar_type),
            navbar_style: get_style(props.navbar_style),
            class_name: props.class_name,
            fixed: props.fixed,
        }
    }
}

impl FromSpecImpl<Props> for NavbarProps {
    open spec fn obeys_from_spec() -> bool {
        false
    }

    open spec fn from_spec(props: Props) -> NavbarProps {
        choose|derived: NavbarProps| derived@ == derived_config(props@)
    }
}

impl Clone for NavbarProps {
    fn clone(&self) -> (copy: NavbarProps)
        ensures
            copy@ == self@,
    {
        NavbarProps {
            navbar_type: self.navbar_type.clone(),
            navbar_style: self.navbar_style.clone(),
            class_name: self.class_name.clone(),
            fixed: self.fixed,
        }
    }
}

impl PartialEq for NavbarProps {
    fn eq(&self, other: &NavbarProps) -> (equal: bool) {
        self.navbar_type == other.navbar_type && self.navbar_style == other.navbar_style
            && self.class_name == other.class_name && self.fixed == other.fixed
    }
}

impl PartialEqSpecImpl for NavbarProps {
    open spec fn obeys_eq_spec() -> bool {
        true
    }

    open spec fn eq_spec(&self, other: &NavbarProps) -> bool {
        self@ == other@
    }
}

/// State of the bar.
#[derive(Debug)]
pub struct Navbar {
    pub props: NavbarProps,
    /// Whether the folded-away menu is shown.
    pub display_menu: bool,
}

/// Mathematical content of a [`Navbar`].
pub struct NavbarState {
    pub props: NavbarConfig,
    pub display_menu: bool,
}

/// What the bar shows.
#[derive(Debug, PartialEq, Eq)]
pub struct NavbarView {
    /// Class line of the bar for narrow screens.
    pub mobile_class: String,
    /// Class line of the bar for wide screens.
    pub class: String,
    /// Whether the narrow bar shows its menu entries.
    pub display_menu: bool,
}

/// The transition function: the state that follows `state` once `msg` is
/// applied.
pub open spec fn fold(state: NavbarState, msg: Msg) -> NavbarState {
    match msg {
        Msg::TroggleMenu => NavbarState { display_menu: !state.display_menu, ..state },
    }
}

/// The name under which every bar files its position.
pub open spec fn registry_name() -> Seq<char> {
    "navbar"@
}

/// The value of `position` that pins a bar as `fixed` asks.
pub open spec fn position_value(fixed: Fixed) -> Seq<char> {
    if fixed == Fixed::Inherit {
        "inherit"@
    } else {
        "fixed"@
    }
}

/// The property that holds the offset of a bar pinned as `fixed` asks: the
/// edge it is pinned to.
pub open spec fn offset_style(fixed: Fixed) -> Seq<char> {
    if fixed == Fixed::Bottom {
        "bottom"@
    } else {
        "top"@
    }
}

/// The style values that pin a bar as `fixed` asks, in the order they are
/// written: the position, then a zero offset from the edge it is pinned to.
pub open spec fn fixed_writes(fixed: Fixed) -> Seq<StyleWrite> {
    let position = StyleWrite {
        wrap: registry_name(),
        style: "position"@,
        value: position_value(fixed),
    };
    match fixed {
        Fixed::Inherit => seq![position],
        _ => seq![
            position,
            StyleWrite { wrap: registry_name(), style: offset_style(fixed), value: "0"@ },
        ],
    }
}

/// The class line of a bar: `base`, then the style, the palette and the
/// custom classes of `config`, each after a space.
pub open spec fn class_line(base: Seq<char>, config: NavbarConfig) -> Seq<char> {
    with_class(
        with_class(with_class(base, config.navbar_style), config.navbar_type),
        config.class_name,
    )
}

/// `shown` is what a bar in `state` shows: both class lines derived from
/// the configuration, and the menu as the state has it.
pub open spec fn renders(state: NavbarState, shown: NavbarView) -> bool {
    &&& shown.mobile_class@ == class_line("navbar-mobile"@, state.props)
    &&& shown.class@ == class_line("navbar"@, state.props)
    &&& shown.display_menu == state.display_menu
}

/// The table after a bar has filed its position once for each entry of
/// `pins`, from first to last.
pub open spec fn pin_all(table: StyleTable, pins: Seq<Fixed>) -> StyleTable
    decreases pins.len(),
{
    if pins.len() == 0 {
        table
    } else {
        write_styles(pin_all(table, pins.drop_last()), fixed_writes(pins.last()))
    }
}

struct NavbarModel;

impl NavbarModel {
    fn init(self, props: NavbarProps, registry: &mut StyleRegistry)
        ensures
            final(registry)@ == write_styles(old(registry)@, fixed_writes(props.fixed)),
    {
        self.set_fixed(props.fixed, registry);
    }

    fn set_fixed(self, fixed: Fixed, registry: &mut StyleRegistry)
        ensures
            final(registry)@ == write_styles(old(registry)@, fixed_writes(fixed)),
    {
        let ghost writes = fixed_writes(fixed);
        proof {
            assert(writes.take(0) =~= Seq::<StyleWrite>::empty());
            assert(write_styles(old(registry)@, writes.take(1)) == write_style(
                old(registry)@,
                writes[0],
            )) by {
                assert(writes.take(1).drop_last() =~= writes.take(0));
                assert(writes.take(1).last() == writes[0]);
                reveal_with_fuel(write_styles, 2);
            }
        }
        registry.create_style(
            String::from_str("position"),
            if fixed == Fixed::Inherit {
                String::from_str("inherit")
            } else {
                String::from_str("fixed")
            },
            String::from_str("navbar"),
        );
        if fixed != Fixed::Inherit {
            registry.create_style(
                if fixed == Fixed::Top {
                    String::from_str("top")
                } else {
                    String::from_str("bottom")
                },
                String::from_str("0"),
                String::from_str("navbar"),
            );
            proof {
                assert(writes.drop_last() =~= writes.take(1));
                assert(writes.last() == writes[1]);
            }
        } else {
            assert(writes.take(1) =~= writes);
        }
    }
}

/// Message for a click on the control that opens and closes the menu.
pub fn menu_clicked() -> (msg: Msg)
    ensures
        msg == Msg::TroggleMenu,
{
    Msg::TroggleMenu
}

impl Navbar {
    /// Mathematical content of the bar.
    pub open spec fn state(&self) -> NavbarState {
        NavbarState { props: self.props@, display_menu: self.display_menu }
    }

    /// A bar configured by `props`, its menu hidden.
    pub fn create(props: Props) -> (navbar: Navbar)
        ensures
            navbar.state() == (NavbarState { props: derived_config(props@), display_menu: false }),
    {
        Navbar { props: NavbarProps::from(props), display_menu: false }
    }

    /// Files the position of the bar in `registry` once the bar is on the
    /// page, and asks for a re-render. The bar itself stays as it is.
    pub fn mounted(&mut self, registry: &mut StyleRegistry) -> (rerender: bool)
        ensures
            final(self).state() == old(self).state(),
            final(registry)@ == write_styles(old(registry)@, fixed_writes(old(self).props.fixed)),
            rerender,
    {
        NavbarModel.init(self.props.clone(), registry);
        true
    }

    /// Folds `msg` into the bar and asks for a re-render.
    pub fn update(&mut self, msg: Msg) -> (rerender: bool)
        ensures
            final(self).state() == fold(old(self).state(), msg),
            rerender,
    {
        match msg {
            Msg::TroggleMenu => {
                self.display_menu = !self.display_menu;
            },
        };
        true
    }

    /// Takes a new configuration from the parent.
    ///
    /// The new configuration is compared with the one held: when they differ
    /// the bar adopts the new one and asks for a re-render, when they are
    /// equal it keeps what it has and asks for none. The position of the
    /// configuration the bar holds afterwards, which is the one it was
    /// handed, is then filed in `registry`. The menu stays as it is.
    pub fn change(&mut self, props: Props, registry: &mut StyleRegistry) -> (rerender: bool)
        ensures
            (final(self).props@, rerender) == reconfigure(old(self).props@, derived_config(props@)),
            final(self).props.fixed == props.fixed,
            final(registry)@ == write_styles(old(registry)@, fixed_writes(final(self).props.fixed)),
            final(self).display_menu == old(self).display_menu,
    {
        let derived = NavbarProps::from(props);
        let rerender = self.props != derived;
        if rerender {
            self.props = derived;
        }
        NavbarModel.init(self.props.clone(), registry);
        rerender
    }

    /// Derives what the bar shows from its state, which it leaves as it is.
    pub fn view(&self) -> (shown: NavbarView)
        ensures
            renders(self.state(), shown),
    {
        NavbarView {
            mobile_class: self.class_for("navbar-mobile"),
            class: self.class_for("navbar"),
            display_menu: self.display_menu,
        }
    }

    fn class_for(&self, base: &str) -> (line: String)
        ensures
            line@ == class_line(base@, self.props@),
    {
        let mut line = String::from_str(base);
        push_class(&mut line, self.props.navbar_style.as_str());
        push_class(&mut line, self.props.navbar_type.as_str());
        push_class(&mut line, self.props.class_name.as_str());
        line
    }
}

/// Toggling the menu twice brings the bar back to the state it started
/// from.
pub proof fn lemma_toggle_twice_restores(state: NavbarState)
    ensures
        fold(fold(state, Msg::TroggleMenu), Msg::TroggleMenu) == state,
        fold(state, Msg::TroggleMenu).display_menu != state.display_menu,
        fold(state, Msg::TroggleMenu).props == state.props,
{
}

/// A new configuration that differs from the held one in any field is
/// adopted with a re-render.
pub proof fn lemma_differing_field_rerenders(old: NavbarConfig, new: NavbarConfig)
    requires
        old.navbar_type != new.navbar_type || old.navbar_style != new.navbar_style
            || old.class_name != new.class_name || old.fixed != new.fixed,
    ensures
        reconfigure(old, new) == (new, true),
{
}

/// Style derivation has no hidden input. Equal configurations from the
/// parent derive equal kept configurations, and whatever two bars in equal
/// states show, at any time and however often they are asked, is the same
/// text.
pub proof fn lemma_derivation_is_pure(
    a: PropsView,
    b: PropsView,
    kept_a: NavbarProps,
    kept_b: NavbarProps,
    menu: bool,
    shown_a: NavbarView,
    shown_b: NavbarView,
)
    requires
        a == b,
        kept_a@ == derived_config(a),
        kept_b@ == derived_config(b),
        renders(NavbarState { props: kept_a@, display_menu: menu }, shown_a),
        renders(NavbarState { props: kept_b@, display_menu: menu }, shown_b),
    ensures
        kept_a.navbar_type@ == kept_b.navbar_type@,
        kept_a.navbar_style@ == kept_b.navbar_style@,
        kept_a.class_name@ == kept_b.class_name@,
        kept_a.fixed == kept_b.fixed,
        shown_a.mobile_class@ == shown_b.mobile_class@,
        shown_a.class@ == shown_b.class@,
        shown_a.display_menu == shown_b.display_menu,
{
}

/// Filing the position of a bar leaves the table with the position that
/// was asked for, whatever the table held before.
pub proof fn lemma_position_is_filed(table: StyleTable, fixed: Fixed)
    ensures
        write_styles(table, fixed_writes(fixed)).contains_key((registry_name(), "position"@)),
        write_styles(table, fixed_writes(fixed))[(registry_name(), "position"@)] == position_value(
            fixed,
        ),
{
    reveal_strlit("position");
    reveal_strlit("top");
    reveal_strlit("bottom");
    let writes = fixed_writes(fixed);
    assert("position"@.len() != "top"@.len());
    assert("position"@.len() != "bottom"@.len());
    assert(writes[0].key() == (registry_name(), "position"@));
    lemma_last_write_wins(table, writes, 0);
}

/// Filing the position of a pinned bar leaves the table with a zero offset
/// from the edge the bar is pinned to, whatever the table held before.
pub proof fn lemma_offset_is_filed(table: StyleTable, fixed: Fixed)
    requires
        fixed != Fixed::Inherit,
    ensures
        write_styles(table, fixed_writes(fixed)).contains_key((registry_name(), offset_style(fixed))),
        write_styles(table, fixed_writes(fixed))[(registry_name(), offset_style(fixed))] == "0"@,
{
    let writes = fixed_writes(fixed);
    assert(writes[1].key() == (registry_name(), offset_style(fixed)));
    lemma_last_write_wins(table, writes, 1);
}

/// After a bar has taken a new configuration, the table holds the position
/// of the configuration the bar was handed, whatever it held before and
/// whatever the bar was configured with before.
pub proof fn lemma_change_files_the_adopted_position(
    held: NavbarConfig,
    handed: PropsView,
    table: StyleTable,
)
    ensures
        reconfigure(held, derived_config(handed)).0.fixed == handed.fixed,
        write_styles(table, fixed_writes(handed.fixed))[(registry_name(), "position"@)]
            == position_value(handed.fixed),
        handed.fixed != Fixed::Inherit ==> write_styles(table, fixed_writes(handed.fixed))[(
            registry_name(),
            offset_style(handed.fixed),
        )] == "0"@,
{
    lemma_position_is_filed(table, handed.fixed);
    if handed.fixed != Fixed::Inherit {
        lemma_offset_is_filed(table, handed.fixed);
    }
}

/// The table ends in the state written last: after a bar has filed its
/// position any number of times, in whatever order of pinnings, the table
/// holds the position of the last one.
pub proof fn lemma_last_pinning_wins(table: StyleTable, pins: Seq<Fixed>)
    requires
        pins.len() > 0,
    ensures
        pin_all(table, pins).contains_key((registry_name(), "position"@)),
        pin_all(table, pins)[(registry_name(), "position"@)] == position_value(pins.last()),
{
    lemma_position_is_filed(pin_all(table, pins.drop_last()), pins.last());
}

} // verus!
