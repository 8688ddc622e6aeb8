//! The lobby SPA's navigation state and the small mappings its screens
//! render from: screen and menu labels, the new-game wizard's steps, and
//! the minimap's terrain classes.

use vstd::prelude::*;
use crate::store::{ascii_lower, is_ascii_text, lowercase, str_to_lowercase};
use crate::text::{contains_seq, decimal_digits, int_text, nat_text, str_contains, str_eq};

verus! {

/// The top-level screens of the lobby.
#[derive(Copy, Clone, Debug, PartialEq, Eq, Structural)]
pub enum Screen {
    Landing,
    Login,
    Menu,
}

pub open spec fn screen_label(s: Screen) -> Seq<char> {
    match s {
        Screen::Landing => "01 Landing"@,
        Screen::Login => "02 Login"@,
        Screen::Menu => "03 Menu"@,
    }
}

impl Screen {
    /// The tab label of a screen in the app bar.
    pub fn label(self) -> (s: &'static str)
        ensures
            s@ == screen_label(self),
    {
        match self {
            Screen::Landing => "01 Landing",
            Screen::Login => "02 Login",
            Screen::Menu => "03 Menu",
        }
    }

    /// Every screen, in tab order.
    pub fn all() -> (v: Vec<Screen>)
        ensures
            v@ == seq![Screen::Landing, Screen::Login, Screen::Menu],
    {
        let v = vec![Screen::Landing, Screen::Login, Screen::Menu];
        assert(v@ =~= seq![Screen::Landing, Screen::Login, Screen::Menu]);
        v
    }
}

/// The entries of the menu sidebar.
#[derive(Copy, Clone, Debug, PartialEq, Eq, Structural)]
pub enum MenuTab {
    Ongoing,
    NewGame,
    Profile,
    Friends,
    Presets,
    Docs,
}

pub open spec fn menu_label(t: MenuTab) -> Seq<char> {
    match t {
        MenuTab::Ongoing => "Ongoing games"@,
        MenuTab::NewGame => "New game"@,
        MenuTab::Profile => "Profile"@,
        MenuTab::Friends => "Friends"@,
        MenuTab::Presets => "Presets"@,
        MenuTab::Docs => "Docs"@,
    }
}

pub open spec fn menu_icon(t: MenuTab) -> Seq<char> {
    match t {
        MenuTab::Ongoing => "▣"@,
        MenuTab::NewGame => "+"@,
        MenuTab::Profile => "◔"@,
        MenuTab::Friends => "◎"@,
        MenuTab::Presets => "≡"@,
        MenuTab::Docs => "?"@,
    }
}

impl MenuTab {
    /// The count badge beside a sidebar entry: the ongoing games carry one
    /// (the sidebar shows 3 awaiting games); no other entry does.
    pub fn badge(self) -> (b: Option<u32>)
        ensures
            self == MenuTab::Ongoing ==> b == Some(3u32),
            self != MenuTab::Ongoing ==> b is None,
    {
        if self == MenuTab::Ongoing {
            Some(3)
        } else {
            None
        }
    }

    /// The sidebar's play entries, in order.
    pub fn primary() -> (v: Vec<MenuTab>)
        ensures
            v@ == seq![MenuTab::Ongoing, MenuTab::NewGame, MenuTab::Profile],
    {
        vec![MenuTab::Ongoing, MenuTab::NewGame, MenuTab::Profile]
    }

    /// The sidebar's secondary entries, in order.
    pub fn secondary() -> (v: Vec<MenuTab>)
        ensures
            v@ == seq![MenuTab::Friends, MenuTab::Presets, MenuTab::Docs],
    {
        vec![MenuTab::Friends, MenuTab::Presets, MenuTab::Docs]
    }

    pub fn label(self) -> (s: &'static str)
        ensures
            s@ == menu_label(self),
    {
        match self {
            MenuTab::Ongoing => "Ongoing games",
            MenuTab::NewGame => "New game",
            MenuTab::Profile => "Profile",
            MenuTab::Friends => "Friends",
            MenuTab::Presets => "Presets",
            MenuTab::Docs => "Docs",
        }
    }

    pub fn icon(self) -> (s: &'static str)
        ensures
            s@ == menu_icon(self),
    {
        match self {
            MenuTab::Ongoing => "▣",
            MenuTab::NewGame => "+",
            MenuTab::Profile => "◔",
            MenuTab::Friends => "◎",
            MenuTab::Presets => "≡",
            MenuTab::Docs => "?",
        }
    }
}

// ───────────────────────────── new-game wizard ───────────────────────────────

/// The steps of the new-game wizard, in order.
#[derive(Copy, Clone, Debug, PartialEq, Eq, Structural)]
pub enum Step {
    MapParams,
    Civ,
    Rules,
    Players,
    Review,
}

/// The position of a step in the strip.
pub open spec fn step_index(s: Step) -> int {
    match s {
        Step::MapParams => 0,
        Step::Civ => 1,
        Step::Rules => 2,
        Step::Players => 3,
        Step::Review => 4,
    }
}

/// The step at a position, if there is one.
pub open spec fn step_at(i: int) -> Option<Step> {
    if i == 0 {
        Some(Step::MapParams)
    } else if i == 1 {
        Some(Step::Civ)
    } else if i == 2 {
        Some(Step::Rules)
    } else if i == 3 {
        Some(Step::Players)
    } else if i == 4 {
        Some(Step::Review)
    } else {
        None
    }
}

pub open spec fn step_label(s: Step) -> Seq<char> {
    match s {
        Step::MapParams => "Map"@,
        Step::Civ => "Civilization"@,
        Step::Rules => "Rules"@,
        Step::Players => "Players"@,
        Step::Review => "Review"@,
    }
}

/// The number of wizard steps.
pub const STEP_COUNT: usize = 5;

impl Step {
    pub fn label(self) -> (s: &'static str)
        ensures
            s@ == step_label(self),
    {
        match self {
            Step::MapParams => "Map",
            Step::Civ => "Civilization",
            Step::Rules => "Rules",
            Step::Players => "Players",
            Step::Review => "Review",
        }
    }

    /// Every step, in order.
    pub fn all() -> (v: Vec<Step>)
        ensures
            v@.len() == STEP_COUNT,
            forall|i: int| 0 <= i < STEP_COUNT ==> step_at(i) == Some(#[trigger] v@[i]),
    {
        vec![Step::MapParams, Step::Civ, Step::Rules, Step::Players, Step::Review]
    }

    /// The step's position in the strip.
    pub fn idx(self) -> (i: usize)
        ensures
            i == step_index(self),
    {
        match self {
            Step::MapParams => 0,
            Step::Civ => 1,
            Step::Rules => 2,
            Step::Players => 3,
            Step::Review => 4,
        }
    }

    fn at(i: usize) -> (s: Option<Step>)
        ensures
            s == step_at(i as int),
    {
        match i {
            0 => Some(Step::MapParams),
            1 => Some(Step::Civ),
            2 => Some(Step::Rules),
            3 => Some(Step::Players),
            4 => Some(Step::Review),
            _ => None,
        }
    }

    /// The step after this one; none after the review.
    pub fn next(self) -> (s: Option<Step>)
        ensures
            s == step_at(step_index(self) + 1),
    {
        Step::at(self.idx() + 1)
    }

    /// The step before this one; none before the map.
    pub fn prev(self) -> (s: Option<Step>)
        ensures
            s == (if step_index(self) == 0 {
                None
            } else {
                step_at(step_index(self) - 1)
            }),
    {
        if self.idx() == 0 {
            None
        } else {
            Step::at(self.idx() - 1)
        }
    }
}

/// Forward and back undo each other: `next` of a step is `t` exactly when
/// `prev` of `t` is that step; the first step has no `prev`, the last no
/// `next`.
pub proof fn lemma_step_next_prev(s: Step, t: Step)
    ensures
        step_at(step_index(s) + 1) == Some(t) <==> (step_index(t) != 0 && step_at(
            step_index(t) - 1,
        ) == Some(s)),
        step_at(step_index(Step::Review) + 1) is None,
        step_index(Step::MapParams) == 0,
        step_at(step_index(s) as int) == Some(s),
{
}

/// What the wizard shows for a step: the map parameters, the civ picker and
/// the review have content; the other steps show a placeholder under their
/// label.
#[derive(Debug)]
pub enum StepBody {
    MapParams,
    CivPicker,
    Review,
    Placeholder(&'static str),
}

/// The body shown for step `s`.
pub fn step_body(s: Step) -> (b: StepBody)
    ensures
        s == Step::MapParams ==> b is MapParams,
        s == Step::Civ ==> b is CivPicker,
        s == Step::Review ==> b is Review,
        (s == Step::Rules || s == Step::Players) ==> (b matches StepBody::Placeholder(l) && l@
            == step_label(s)),
{
    match s {
        Step::MapParams => StepBody::MapParams,
        Step::Civ => StepBody::CivPicker,
        Step::Review => StepBody::Review,
        other => StepBody::Placeholder(other.label()),
    }
}

/// Whether the footer's back button is enabled: every step but the first
/// has one before it.
pub fn back_enabled(s: Step) -> (r: bool)
    ensures
        r == (step_index(s) != 0),
{
    s.prev().is_some()
}

/// What the footer's main button does on step `s`: generate the world on
/// the review, else move on to the next step.
#[derive(Debug, PartialEq, Eq, Structural, Clone, Copy)]
pub enum FooterAction {
    Generate,
    Advance(Step),
}

pub fn footer_action(s: Step) -> (a: FooterAction)
    ensures
        s == Step::Review ==> a == FooterAction::Generate,
        s != Step::Review ==> step_at(step_index(s) + 1) == Some(
            match a {
                FooterAction::Advance(t) => t,
                FooterAction::Generate => s,
            },
        ) && a is Advance,
{
    match s.next() {
        Some(t) => FooterAction::Advance(t),
        None => FooterAction::Generate,
    }
}

// ───────────────────────────── civ picker ────────────────────────────────────

/// One leader in the civ picker.
#[derive(Clone, Copy, Debug)]
pub struct CivPick {
    pub leader: &'static str,
    pub civ: &'static str,
    pub trait_: &'static str,
    pub unique_unit: &'static str,
    pub unique_building: &'static str,
    pub leader_ability: &'static str,
    pub civ_ability: &'static str,
}

/// What a [`CivPick`] shows.
pub struct CivCard {
    pub leader: Seq<char>,
    pub civ: Seq<char>,
    pub trait_: Seq<char>,
    pub unique_unit: Seq<char>,
    pub unique_building: Seq<char>,
    pub leader_ability: Seq<char>,
    pub civ_ability: Seq<char>,
}

impl View for CivPick {
    type V = CivCard;

    open spec fn view(&self) -> CivCard {
        CivCard {
            leader: self.leader@,
            civ: self.civ@,
            trait_: self.trait_@,
            unique_unit: self.unique_unit@,
            unique_building: self.unique_building@,
            leader_ability: self.leader_ability@,
            civ_ability: self.civ_ability@,
        }
    }
}

/// The picker's cards, in order: each leader with its civilization, trait,
/// unique unit and building, and the two abilities.
pub open spec fn civ_catalogue() -> Seq<CivCard> {
    seq![
        CivCard { leader: "Saladin"@, civ: "Arabia"@, trait_: "Trade & faith"@, unique_unit: "Mamluk"@, unique_building: "Madrasa"@, leader_ability: "Righteousness of the Faith"@, civ_ability: "The Last Prophet"@ },
        CivCard { leader: "Trajan"@, civ: "Rome"@, trait_: "Expansionist"@, unique_unit: "Legion"@, unique_building: "Bath"@, leader_ability: "Trajan's Column"@, civ_ability: "All Roads Lead to Rome"@ },
        CivCard { leader: "Catherine"@, civ: "Russia"@, trait_: "Wide / faith"@, unique_unit: "Cossack"@, unique_building: "Lavra"@, leader_ability: "The Grand Embassy"@, civ_ability: "Mother Russia"@ },
        CivCard { leader: "Cleopatra"@, civ: "Egypt"@, trait_: "Wonders / trade"@, unique_unit: "Maryannu Chariot Archer"@, unique_building: "Sphinx"@, leader_ability: "Mediterranean's Bride"@, civ_ability: "Iteru"@ },
        CivCard { leader: "Hojo"@, civ: "Japan"@, trait_: "Coastal / military"@, unique_unit: "Samurai"@, unique_building: "Electronics Factory"@, leader_ability: "Divine Wind"@, civ_ability: "Meiji Restoration"@ },
        CivCard { leader: "Gandhi"@, civ: "India"@, trait_: "Religion / peace"@, unique_unit: "Varu"@, unique_building: "Stepwell"@, leader_ability: "Satyagraha"@, civ_ability: "Dharma"@ },
        CivCard { leader: "Pedro II"@, civ: "Brazil"@, trait_: "Cultural"@, unique_unit: "Minas Geraes"@, unique_building: "Street Carnival"@, leader_ability: "Magnanimous"@, civ_ability: "Amazon"@ },
        CivCard { leader: "Random"@, civ: "?"@, trait_: "surprise me"@, unique_unit: "—"@, unique_building: "—"@, leader_ability: "—"@, civ_ability: "—"@ },
    ]
}

/// The civ picker's catalogue.
pub fn civ_picks() -> (v: Vec<CivPick>)
    ensures
        v@.len() == civ_catalogue().len(),
        forall|i: int| 0 <= i < v@.len() ==> (#[trigger] v@[i])@ == civ_catalogue()[i],
{
    vec![
        CivPick { leader: "Saladin", civ: "Arabia", trait_: "Trade & faith", unique_unit: "Mamluk", unique_building: "Madrasa", leader_ability: "Righteousness of the Faith", civ_ability: "The Last Prophet" },
        CivPick { leader: "Trajan", civ: "Rome", trait_: "Expansionist", unique_unit: "Legion", unique_building: "Bath", leader_ability: "Trajan's Column", civ_ability: "All Roads Lead to Rome" },
        CivPick { leader: "Catherine", civ: "Russia", trait_: "Wide / faith", unique_unit: "Cossack", unique_building: "Lavra", leader_ability: "The Grand Embassy", civ_ability: "Mother Russia" },
        CivPick { leader: "Cleopatra", civ: "Egypt", trait_: "Wonders / trade", unique_unit: "Maryannu Chariot Archer", unique_building: "Sphinx", leader_ability: "Mediterranean's Bride", civ_ability: "Iteru" },
        CivPick { leader: "Hojo", civ: "Japan", trait_: "Coastal / military", unique_unit: "Samurai", unique_building: "Electronics Factory", leader_ability: "Divine Wind", civ_ability: "Meiji Restoration" },
        CivPick { leader: "Gandhi", civ: "India", trait_: "Religion / peace", unique_unit: "Varu", unique_building: "Stepwell", leader_ability: "Satyagraha", civ_ability: "Dharma" },
        CivPick { leader: "Pedro II", civ: "Brazil", trait_: "Cultural", unique_unit: "Minas Geraes", unique_building: "Street Carnival", leader_ability: "Magnanimous", civ_ability: "Amazon" },
        CivPick { leader: "Random", civ: "?", trait_: "surprise me", unique_unit: "—", unique_building: "—", leader_ability: "—", civ_ability: "—" },
    ]
}

/// The letter on a civ card: the leader's first character, `?` for an
/// empty name.
pub fn leader_initial(leader: &str) -> (c: char)
    ensures
        c == (if leader@.len() == 0 { '?' } else { leader@[0] }),
{
    let chars = crate::text::chars_of(leader);
    if chars.len() == 0 {
        '?'
    } else {
        chars[0]
    }
}

/// The style of a civ card: accented when its leader is the selected one.
pub fn civ_card_style(selected: &str, leader: &str) -> (s: &'static str)
    ensures
        selected@ == leader@ ==> s@
            == "cursor:pointer; padding:12px; width:100%; border-color:var(--accent); background:var(--accent-soft)"@,
        selected@ != leader@ ==> s@
            == "cursor:pointer; padding:12px; width:100%; border-color:var(--hairline); background:var(--paper)"@,
{
    if str_eq(selected, leader) {
        "cursor:pointer; padding:12px; width:100%; border-color:var(--accent); background:var(--accent-soft)"
    } else {
        "cursor:pointer; padding:12px; width:100%; border-color:var(--hairline); background:var(--paper)"
    }
}

// ───────────────────────────── navigation ────────────────────────────────────

/// Which screen is up, and which menu tab the menu shows.
#[derive(Clone, Copy, Debug, PartialEq, Eq, Structural)]
pub struct NavState {
    pub screen: Screen,
    pub tab: MenuTab,
}

/// What the user did: the landing's sign-in call to action, the login's
/// back button, the ongoing games' new-game button, an app-bar tab, or a
/// sidebar entry.
#[derive(Clone, Copy, Debug, PartialEq, Eq, Structural)]
pub enum NavEvent {
    SignIn,
    Back,
    StartNewGame,
    Show(Screen),
    Open(MenuTab),
}

pub open spec fn nav_spec(st: NavState, ev: NavEvent) -> NavState {
    match ev {
        NavEvent::SignIn => NavState { screen: Screen::Login, ..st },
        NavEvent::Back => NavState { screen: Screen::Landing, ..st },
        NavEvent::StartNewGame => NavState { screen: Screen::Menu, tab: MenuTab::NewGame },
        NavEvent::Show(s) => NavState { screen: s, ..st },
        NavEvent::Open(t) => NavState { tab: t, ..st },
    }
}

impl NavState {
    /// The state the app starts in: the landing screen, the ongoing games
    /// tab.
    pub fn initial() -> (st: NavState)
        ensures
            st == (NavState { screen: Screen::Landing, tab: MenuTab::Ongoing }),
    {
        NavState { screen: Screen::Landing, tab: MenuTab::Ongoing }
    }

    /// The state after `ev`.
    pub fn step(self, ev: NavEvent) -> (st: NavState)
        ensures
            st == nav_spec(self, ev),
    {
        match ev {
            NavEvent::SignIn => NavState { screen: Screen::Login, tab: self.tab },
            NavEvent::Back => NavState { screen: Screen::Landing, tab: self.tab },
            NavEvent::StartNewGame => NavState { screen: Screen::Menu, tab: MenuTab::NewGame },
            NavEvent::Show(s) => NavState { screen: s, tab: self.tab },
            NavEvent::Open(t) => NavState { screen: self.screen, tab: t },
        }
    }
}

/// What each navigation event does, for every state: the app-bar tab of a
/// screen shows exactly that screen and keeps the menu tab; sign-in shows the
/// login and back shows the landing, both keeping the tab; the new-game
/// button opens the menu on the new-game tab; a sidebar entry selects its
/// tab and keeps the screen.
pub proof fn lemma_nav_events(st: NavState, s: Screen, t: MenuTab)
    ensures
        nav_spec(st, NavEvent::Show(s)).screen == s,
        nav_spec(st, NavEvent::Show(s)).tab == st.tab,
        nav_spec(st, NavEvent::SignIn) == (NavState { screen: Screen::Login, tab: st.tab }),
        nav_spec(st, NavEvent::Back) == (NavState { screen: Screen::Landing, tab: st.tab }),
        nav_spec(st, NavEvent::StartNewGame) == (NavState {
            screen: Screen::Menu,
            tab: MenuTab::NewGame,
        }),
        nav_spec(st, NavEvent::Open(t)) == (NavState { screen: st.screen, tab: t }),
{
}

/// Every navigation event is idempotent: doing it twice lands where doing it
/// once does. Only `StartNewGame` and `Open` change the tab, and only
/// `Open` leaves the screen alone.
pub proof fn lemma_nav_idempotent(st: NavState, ev: NavEvent)
    ensures
        nav_spec(nav_spec(st, ev), ev) == nav_spec(st, ev),
        !(ev is StartNewGame || ev is Open) ==> nav_spec(st, ev).tab == st.tab,
        ev is Open ==> nav_spec(st, ev).screen == st.screen,
{
}

// ───────────────────────────── minimap terrain ───────────────────────────────

/// The CSS class of an already lower-cased terrain name: water for oceans,
/// coasts, lakes and reefs; the raised land class for hills and mountains;
/// plain land otherwise.
pub open spec fn lower_terrain_class_spec(t: Seq<char>) -> Seq<char> {
    if contains_seq(t, "ocean"@) || contains_seq(t, "coast"@) || contains_seq(t, "water"@)
        || contains_seq(t, "lake"@) || contains_seq(t, "reef"@) {
        "water"@
    } else if contains_seq(t, "hill"@) || contains_seq(t, "mountain"@) {
        "land-self"@
    } else {
        "land"@
    }
}

/// The CSS class a terrain name maps to: matching is on the lower-cased
/// name.
pub open spec fn terrain_class_spec(terrain: Seq<char>) -> Seq<char> {
    lower_terrain_class_spec(lowercase(terrain))
}

/// The minimap class of a lower-cased terrain name, by substring.
pub fn lower_terrain_class(t: &str) -> (s: &'static str)
    ensures
        s@ == lower_terrain_class_spec(t@),
{
    if str_contains(t, "ocean") || str_contains(t, "coast") || str_contains(t, "water")
        || str_contains(t, "lake") || str_contains(t, "reef") {
        "water"
    } else if str_contains(t, "hill") || str_contains(t, "mountain") {
        "land-self"
    } else {
        "land"
    }
}

/// The minimap classes: a lower-cased name that mentions an ocean, a coast,
/// water, a lake or a reef is water; else one that mentions a hill or a
/// mountain is raised land; anything else is land. Only these three classes
/// occur.
pub proof fn lemma_lower_terrain_classes(t: Seq<char>)
    ensures
        contains_seq(t, "ocean"@) ==> lower_terrain_class_spec(t) == "water"@,
        contains_seq(t, "coast"@) ==> lower_terrain_class_spec(t) == "water"@,
        contains_seq(t, "water"@) ==> lower_terrain_class_spec(t) == "water"@,
        contains_seq(t, "lake"@) ==> lower_terrain_class_spec(t) == "water"@,
        contains_seq(t, "reef"@) ==> lower_terrain_class_spec(t) == "water"@,
        !contains_seq(t, "ocean"@) && !contains_seq(t, "coast"@) && !contains_seq(t, "water"@)
            && !contains_seq(t, "lake"@) && !contains_seq(t, "reef"@) ==> {
            &&& contains_seq(t, "hill"@) ==> lower_terrain_class_spec(t) == "land-self"@
            &&& contains_seq(t, "mountain"@) ==> lower_terrain_class_spec(t) == "land-self"@
            &&& !contains_seq(t, "hill"@) && !contains_seq(t, "mountain"@)
                ==> lower_terrain_class_spec(t) == "land"@
        },
        lower_terrain_class_spec(t) == "water"@ || lower_terrain_class_spec(t) == "land-self"@
            || lower_terrain_class_spec(t) == "land"@,
{
}

/// An ASCII terrain name is classed by its ASCII lower-cased form: one that
/// mentions a lake in any letter case (and so `Lake`) is water.
pub proof fn lemma_ascii_terrain_lake_is_water(terrain: Seq<char>)
    requires
        is_ascii_text(terrain),
        contains_seq(ascii_lower(terrain), "lake"@),
    ensures
        lower_terrain_class_spec(ascii_lower(terrain)) == "water"@,
{
}

/// Maps a terrain name (possibly composite, like `Grassland+Hills`) to the
/// minimap's CSS class.
pub fn terrain_class(terrain: &str) -> (s: &'static str)
    ensures
        s@ == terrain_class_spec(terrain@),
        is_ascii_text(terrain@) ==> s@ == lower_terrain_class_spec(ascii_lower(terrain@)),
{
    let t = str_to_lowercase(terrain);
    lower_terrain_class(t.as_str())
}

// ───────────────────────────── game thumbnails ───────────────────────────────

/// One tile reduced to what the minimap needs.
#[derive(Debug, Clone)]
pub struct ThumbCell {
    pub q: i32,
    pub r: i32,
    pub terrain: String,
}

/// A world's dimensions and its tiles, for the minimap.
#[derive(Debug, Clone)]
pub struct ThumbnailGrid {
    pub width: u32,
    pub height: u32,
    pub cells: Vec<ThumbCell>,
}

/// The state of one game's thumbnail in the cache.
#[derive(Clone, Debug)]
pub enum ThumbnailEntry {
    Pending,
    Ready(ThumbnailGrid),
    Failed(String),
}

impl ThumbCell {
    /// A copy equal to `self`.
    pub fn duplicate(&self) -> (c: ThumbCell)
        ensures
            c == *self,
    {
        ThumbCell { q: self.q, r: self.r, terrain: self.terrain.clone() }
    }
}

/// What a [`ThumbnailGrid`] holds.
pub struct GridModel {
    pub width: u32,
    pub height: u32,
    pub cells: Seq<ThumbCell>,
}

impl View for ThumbnailGrid {
    type V = GridModel;

    open spec fn view(&self) -> GridModel {
        GridModel { width: self.width, height: self.height, cells: self.cells@ }
    }
}

impl ThumbnailGrid {
    /// A copy with the same view.
    pub fn duplicate(&self) -> (g: ThumbnailGrid)
        ensures
            g@ == self@,
    {
        let mut cells: Vec<ThumbCell> = Vec::new();
        let n = self.cells.len();
        for i in 0..n
            invariant
                n == self.cells@.len(),
                cells@ == self.cells@.take(i as int),
        {
            cells.push(self.cells[i].duplicate());
            assert(self.cells@.take(i as int).push(self.cells@[i as int]) =~= self.cells@.take(
                i + 1,
            ));
        }
        assert(self.cells@.take(n as int) =~= self.cells@);
        ThumbnailGrid { width: self.width, height: self.height, cells }
    }
}

/// What a [`ThumbnailEntry`] holds.
pub enum EntryModel {
    Pending,
    Ready(GridModel),
    Failed(Seq<char>),
}

impl View for ThumbnailEntry {
    type V = EntryModel;

    open spec fn view(&self) -> EntryModel {
        match self {
            ThumbnailEntry::Pending => EntryModel::Pending,
            ThumbnailEntry::Ready(g) => EntryModel::Ready(g@),
            ThumbnailEntry::Failed(m) => EntryModel::Failed(m@),
        }
    }
}

impl ThumbnailEntry {
    /// A copy with the same view.
    pub fn duplicate(&self) -> (e: ThumbnailEntry)
        ensures
            e@ == self@,
    {
        match self {
            ThumbnailEntry::Pending => ThumbnailEntry::Pending,
            ThumbnailEntry::Ready(g) => ThumbnailEntry::Ready(g.duplicate()),
            ThumbnailEntry::Failed(m) => ThumbnailEntry::Failed(m.clone()),
        }
    }
}

/// The entries of a cache as a map from game id to entry; a later pair
/// for the same id wins.
pub open spec fn cache_map(s: Seq<(String, ThumbnailEntry)>) -> Map<Seq<char>, EntryModel>
    decreases s.len(),
{
    if s.len() == 0 {
        Map::empty()
    } else {
        cache_map(s.drop_last()).insert(s.last().0@, s.last().1@)
    }
}

/// No game id occurs twice.
pub open spec fn ids_distinct(s: Seq<(String, ThumbnailEntry)>) -> bool {
    forall|i: int, j: int| 0 <= i < j < s.len() ==> #[trigger] s[i].0@ != #[trigger] s[j].0@
}

proof fn lemma_cache_map_at(s: Seq<(String, ThumbnailEntry)>, i: int)
    requires
        ids_distinct(s),
        0 <= i < s.len(),
    ensures
        cache_map(s).dom().contains(s[i].0@),
        cache_map(s)[s[i].0@] == s[i].1@,
    decreases s.len(),
{
    if i < s.len() - 1 {
        let d = s.drop_last();
        assert(d[i] == s[i]);
        assert(ids_distinct(d));
        lemma_cache_map_at(d, i);
        assert(s[i].0@ != s[s.len() - 1].0@);
    }
}

proof fn lemma_cache_map_absent(s: Seq<(String, ThumbnailEntry)>, k: Seq<char>)
    requires
        forall|i: int| 0 <= i < s.len() ==> #[trigger] s[i].0@ != k,
    ensures
        !cache_map(s).dom().contains(k),
    decreases s.len(),
{
    if s.len() > 0 {
        let d = s.drop_last();
        assert forall|i: int| 0 <= i < d.len() implies #[trigger] d[i].0@ != k by {
            assert(d[i] == s[i]);
        }
        lemma_cache_map_absent(d, k);
        assert(s[s.len() - 1].0@ != k);
    }
}

proof fn lemma_cache_map_update(s: Seq<(String, ThumbnailEntry)>, i: int, p: (String, ThumbnailEntry))
    requires
        ids_distinct(s),
        0 <= i < s.len(),
        p.0@ == s[i].0@,
    ensures
        cache_map(s.update(i, p)) =~= cache_map(s).insert(p.0@, p.1@),
    decreases s.len(),
{
    let u = s.update(i, p);
    let d = s.drop_last();
    if i == s.len() - 1 {
        assert(u.drop_last() =~= d);
    } else {
        assert(u.drop_last() =~= d.update(i, p));
        assert(ids_distinct(d));
        lemma_cache_map_update(d, i, p);
        assert(s[i].0@ != s[s.len() - 1].0@);
        assert(u.last() == s.last());
    }
}

/// The in-session cache of game thumbnails, keyed by game id.
pub struct ThumbnailCache {
    entries: Vec<(String, ThumbnailEntry)>,
}

impl View for ThumbnailCache {
    type V = Map<Seq<char>, EntryModel>;

    closed spec fn view(&self) -> Map<Seq<char>, EntryModel> {
        cache_map(self.entries@)
    }
}

impl ThumbnailCache {
    #[verifier::type_invariant]
    spec fn ids_unique(self) -> bool {
        ids_distinct(self.entries@)
    }

    /// An empty cache.
    pub fn new() -> (c: ThumbnailCache)
        ensures
            c@ == Map::<Seq<char>, EntryModel>::empty(),
    {
        ThumbnailCache { entries: Vec::new() }
    }

    fn position(&self, token: &str) -> (r: Option<usize>)
        ensures
            match r {
                Some(i) => i < self.entries@.len() && self.entries@[i as int].0@ == token@,
                None => forall|j: int|
                    0 <= j < self.entries@.len() ==> #[trigger] self.entries@[j].0@ != token@,
            },
    {
        let n = self.entries.len();
        for i in 0..n
            invariant
                n == self.entries@.len(),
                forall|j: int| 0 <= j < i ==> #[trigger] self.entries@[j].0@ != token@,
        {
            if str_eq(self.entries[i].0.as_str(), token) {
                return Some(i);
            }
        }
        None
    }

    /// The entry cached for `token`, if any.
    pub fn get_entry(&self, token: &str) -> (r: Option<ThumbnailEntry>)
        ensures
            match r {
                Some(e) => self@.dom().contains(token@) && e@ == self@[token@],
                None => !self@.dom().contains(token@),
            },
    {
        proof {
            use_type_invariant(self);
        }
        match self.position(token) {
            Some(i) => {
                proof {
                    lemma_cache_map_at(self.entries@, i as int);
                }
                Some(self.entries[i].1.duplicate())
            },
            None => {
                proof {
                    lemma_cache_map_absent(self.entries@, token@);
                }
                None
            },
        }
    }

    /// Records `entry` for `token`, replacing what was there.
    pub fn set_entry(&mut self, token: String, entry: ThumbnailEntry)
        ensures
            final(self)@ == old(self)@.insert(token@, entry@),
    {
        proof {
            use_type_invariant(&*self);
        }
        let found = self.position(token.as_str());
        let mut entries: Vec<(String, ThumbnailEntry)> = Vec::new();
        std::mem::swap(&mut entries, &mut self.entries);
        let ghost before = entries@;
        match found {
            Some(i) => {
                proof {
                    lemma_cache_map_update(before, i as int, (token, entry));
                }
                entries.set(i, (token, entry));
            },
            None => {
                entries.push((token, entry));
                assert(entries@.drop_last() =~= before);
            },
        }
        self.entries = entries;
    }
}

impl Default for ThumbnailCache {
    fn default() -> (c: Self)
        ensures
            c@ == Map::<Seq<char>, EntryModel>::empty(),
    {
        ThumbnailCache::new()
    }
}

/// The cache after asking for `game_id`'s thumbnail, and whether a fetch
/// must start: a non-empty id with nothing cached gets a pending entry and
/// a fetch; otherwise nothing changes.
pub open spec fn ensure_step(m: Map<Seq<char>, EntryModel>, game_id: Seq<char>) -> (Map<
    Seq<char>,
    EntryModel,
>, bool) {
    if game_id.len() != 0 && !m.dom().contains(game_id) {
        (m.insert(game_id, EntryModel::Pending), true)
    } else {
        (m, false)
    }
}

/// Asks for `game_id`'s thumbnail: marks it pending and returns `true`
/// when the caller must start the fetch; pending, ready and failed entries
/// are left alone, and an empty id is ignored.
pub fn ensure_fetched(cache: &mut ThumbnailCache, game_id: String) -> (start: bool)
    ensures
        (final(cache)@, start) == ensure_step(old(cache)@, game_id@),
{
    let cached = cache.get_entry(game_id.as_str()).is_some();
    if needs_fetch(game_id.as_str(), cached) {
        cache.set_entry(game_id, ThumbnailEntry::Pending);
        true
    } else {
        false
    }
}

/// Records the outcome of a thumbnail fetch: the grid, or the error text.
pub fn finish_fetch(cache: &mut ThumbnailCache, game_id: String, outcome: Result<ThumbnailGrid, String>)
    ensures
        final(cache)@ == old(cache)@.insert(
            game_id@,
            match outcome {
                Ok(g) => EntryModel::Ready(g@),
                Err(m) => EntryModel::Failed(m@),
            },
        ),
{
    match outcome {
        Ok(grid) => cache.set_entry(game_id, ThumbnailEntry::Ready(grid)),
        Err(e) => cache.set_entry(game_id, ThumbnailEntry::Failed(e)),
    }
}

/// What asking for a thumbnail does: an empty game id is ignored; an id with
/// an entry (pending, ready or failed) is left alone; any other id gets a
/// pending entry, every other entry unchanged, and a fetch starts.
pub proof fn lemma_ensure_fetched_cases(m: Map<Seq<char>, EntryModel>, game_id: Seq<char>)
    ensures
        game_id.len() == 0 ==> ensure_step(m, game_id) == (m, false),
        m.dom().contains(game_id) ==> ensure_step(m, game_id) == (m, false),
        game_id.len() != 0 && !m.dom().contains(game_id) ==> {
            &&& ensure_step(m, game_id).1
            &&& ensure_step(m, game_id).0.dom() == m.dom().insert(game_id)
            &&& ensure_step(m, game_id).0[game_id] is Pending
            &&& forall|k: Seq<char>| #[trigger] m.dom().contains(k) ==> ensure_step(m, game_id).0[k]
                == m[k]
        },
{
    if game_id.len() != 0 && !m.dom().contains(game_id) {
        assert(ensure_step(m, game_id).0.dom() =~= m.dom().insert(game_id));
    }
}

/// Asking twice for a thumbnail starts at most one fetch: the second ask
/// changes nothing and starts none.
pub proof fn lemma_ensure_fetched_idempotent(m: Map<Seq<char>, EntryModel>, game_id: Seq<char>)
    ensures
        ensure_step(ensure_step(m, game_id).0, game_id) == (ensure_step(m, game_id).0, false),
{
}

/// A cache read gives back the last entry written for that id, and a write
/// leaves the other ids alone.
pub proof fn lemma_cache_read_after_write(
    m: Map<Seq<char>, EntryModel>,
    token: Seq<char>,
    other: Seq<char>,
    e: EntryModel,
)
    ensures
        m.insert(token, e).dom().contains(token),
        m.insert(token, e)[token] == e,
        other != token ==> (m.insert(token, e).dom().contains(other) == m.dom().contains(other)),
        other != token && m.dom().contains(other) ==> m.insert(token, e)[other] == m[other],
{
}

/// Whether a thumbnail fetch must start: a game id is given and nothing is
/// cached for it yet (pending, ready and failed entries are all left alone).
pub fn needs_fetch(game_id: &str, cached: bool) -> (r: bool)
    ensures
        r == (game_id@.len() != 0 && !cached),
{
    !game_id.is_empty() && !cached
}

/// The lobby path that proxies a game's thumbnail.
pub fn thumbnail_path(game_id: &str) -> (s: String)
    ensures
        s@ == "/api/v1/games/"@ + game_id@ + "/thumbnail"@,
{
    String::from_str("/api/v1/games/").concat(game_id).concat("/thumbnail")
}

// ───────────────────────────── widget classes ────────────────────────────────

/// A panel's class list: `panel`, then ` flush` for a flush panel, then a
/// space and the extra classes when there are any.
pub proof fn lemma_panel_classes(class: Seq<char>)
    ensures
        panel_class_spec(false, Seq::empty()) == "panel"@,
        panel_class_spec(true, Seq::empty()) == "panel"@ + " flush"@,
        class.len() > 0 ==> panel_class_spec(false, class) == "panel"@ + seq![' '] + class,
        class.len() > 0 ==> panel_class_spec(true, class) == "panel"@ + " flush"@ + seq![' ']
            + class,
{
    assert(panel_class_spec(false, Seq::empty()) =~= "panel"@);
    assert(panel_class_spec(true, Seq::empty()) =~= "panel"@ + " flush"@);
    assert(panel_class_spec(false, class) =~= "panel"@ + Seq::<char>::empty() + (if class.len()
        > 0 {
        seq![' '] + class
    } else {
        Seq::empty()
    }));
    assert(("panel"@ + Seq::<char>::empty()) =~= "panel"@);
}

/// The class list of a button: `btn`, its variant, its size, extra classes.
pub fn btn_class(variant: &str, size: &str, class: &str) -> (s: String)
    ensures
        s@ == "btn "@ + variant@ + " "@ + size@ + " "@ + class@,
{
    String::from_str("btn ").concat(variant).concat(" ").concat(size).concat(" ").concat(class)
}

/// The class list of a panel: `panel`, then `flush` if asked, then the
/// extra classes if any.
pub open spec fn panel_class_spec(flush: bool, class: Seq<char>) -> Seq<char> {
    "panel"@ + (if flush { " flush"@ } else { Seq::empty() }) + (if class.len() > 0 {
        seq![' '] + class
    } else {
        Seq::empty()
    })
}

pub fn panel_class(flush: bool, class: &str) -> (s: String)
    ensures
        s@ == panel_class_spec(flush, class@),
{
    let mut full = String::from_str("panel");
    let ghost base = full@;
    if flush {
        full.append(" flush");
    }
    let ghost mid = full@;
    assert(mid == base + (if flush { " flush"@ } else { Seq::empty() }));
    if !class.is_empty() {
        crate::text::push_char(&mut full, ' ');
        full.append(class);
        assert(full@ =~= mid + (seq![' '] + class@));
    } else {
        assert(full@ =~= mid + Seq::<char>::empty());
    }
    full
}

/// The class of the `i`-th button of the step strip while step `current`
/// is shown: done before it, current at it, plain after it.
pub fn step_class(i: usize, current: usize) -> (s: &'static str)
    ensures
        i < current ==> s@ == "step done"@,
        i == current ==> s@ == "step current"@,
        i > current ==> s@ == "step"@,
{
    if i < current {
        "step done"
    } else if i == current {
        "step current"
    } else {
        "step"
    }
}

/// The counter shown beside the strip: `step {n} of {total}`.
pub fn step_counter(current: Step) -> (s: String)
    ensures
        s@ == "step "@ + crate::text::nat_text((step_index(current) + 1) as nat) + " of "@
            + crate::text::nat_text(STEP_COUNT as nat),
{
    let n = crate::text::u64_text((current.idx() + 1) as u64);
    let total = crate::text::u64_text(STEP_COUNT as u64);
    String::from_str("step ").concat(n.as_str()).concat(" of ").concat(total.as_str())
}

// ───────────────────────────── ongoing games tiles ───────────────────────────

/// Where a game on the ongoing-games grid stands.
#[derive(Clone, Copy, Debug, PartialEq, Eq, Structural)]
pub enum GameStatus {
    YourTurn,
    Waiting,
    Completed,
}

impl GameStatus {
    /// The label of a tile's main action.
    pub fn resume_label(self) -> (s: &'static str)
        ensures
            self == GameStatus::YourTurn ==> s@ == "→ Resume"@,
            self == GameStatus::Waiting ==> s@ == "Open"@,
            self == GameStatus::Completed ==> s@ == "Review"@,
    {
        match self {
            GameStatus::YourTurn => "→ Resume",
            GameStatus::Waiting => "Open",
            GameStatus::Completed => "Review",
        }
    }

    /// The tile's class: highlighted when it is the player's turn.
    pub fn tile_class(self) -> (s: &'static str)
        ensures
            self == GameStatus::YourTurn ==> s@ == "game-tile your-turn"@,
            self != GameStatus::YourTurn ==> s@ == "game-tile"@,
    {
        if self == GameStatus::YourTurn {
            "game-tile your-turn"
        } else {
            "game-tile"
        }
    }

    /// The main action's button variant: accent when it is the player's
    /// turn.
    pub fn resume_variant(self) -> (s: &'static str)
        ensures
            self == GameStatus::YourTurn ==> s@ == "accent"@,
            self != GameStatus::YourTurn ==> s@ == "primary"@,
    {
        if self == GameStatus::YourTurn {
            "accent"
        } else {
            "primary"
        }
    }
}

/// How many of the games await the player.
pub open spec fn awaiting_spec(s: Seq<GameStatus>) -> nat
    decreases s.len(),
{
    if s.len() == 0 {
        0
    } else {
        awaiting_spec(s.drop_last()) + if s.last() == GameStatus::YourTurn { 1nat } else { 0nat }
    }
}

/// The awaiting count adds up over a list of games: one for each game where
/// it is the player's turn, none for the others, never more than the games.
pub proof fn lemma_awaiting_counts(s: Seq<GameStatus>, t: Seq<GameStatus>, g: GameStatus)
    ensures
        awaiting_spec(s + t) == awaiting_spec(s) + awaiting_spec(t),
        awaiting_spec(seq![g]) == (if g == GameStatus::YourTurn { 1nat } else { 0nat }),
        awaiting_spec(s) <= s.len(),
    decreases t.len(),
{
    assert(seq![g].drop_last() =~= Seq::<GameStatus>::empty());
    assert(awaiting_spec(Seq::<GameStatus>::empty()) == 0);
    assert(seq![g].last() == g);
    if t.len() > 0 {
        lemma_awaiting_counts(s, t.drop_last(), g);
        assert((s + t).drop_last() =~= s + t.drop_last());
    } else {
        assert(s + t =~= s);
    }
    lemma_awaiting_le_len(s);
}

proof fn lemma_awaiting_le_len(s: Seq<GameStatus>)
    ensures
        awaiting_spec(s) <= s.len(),
    decreases s.len(),
{
    if s.len() > 0 {
        lemma_awaiting_le_len(s.drop_last());
    }
}

/// The number of games where it is the player's turn.
pub fn awaiting_count(statuses: &Vec<GameStatus>) -> (n: usize)
    ensures
        n == awaiting_spec(statuses@),
{
    let mut n: usize = 0;
    let len = statuses.len();
    for i in 0..len
        invariant
            len == statuses@.len(),
            n == awaiting_spec(statuses@.take(i as int)),
            n <= i,
    {
        assert(statuses@.take(i + 1).drop_last() =~= statuses@.take(i as int));
        if statuses[i] == GameStatus::YourTurn {
            n = n + 1;
        }
    }
    assert(statuses@.take(len as int) =~= statuses@);
    n
}

/// The header line of the ongoing games: `{total} games · {n} awaiting you`.
pub fn ongoing_summary(statuses: &Vec<GameStatus>) -> (s: String)
    ensures
        s@ == crate::text::nat_text(statuses@.len()) + " games · "@ + crate::text::nat_text(
            awaiting_spec(statuses@),
        ) + " awaiting you"@,
{
    let total = crate::text::u64_text(statuses.len() as u64);
    let n = crate::text::u64_text(awaiting_count(statuses) as u64);
    total.concat(" games · ").concat(n.as_str()).concat(" awaiting you")
}

/// The notification tag of a tile: `!{n}` when there are notifications.
pub fn notif_tag(notif: u32) -> (t: Option<String>)
    ensures
        notif == 0 ==> t is None,
        notif != 0 ==> (t matches Some(s) && s@ == seq!['!'] + crate::text::nat_text(
            notif as nat,
        )),
{
    if notif == 0 {
        None
    } else {
        let mut s = String::new();
        crate::text::push_char(&mut s, '!');
        let ghost head = s@;
        let s = s.concat(crate::text::u64_text(notif as u64).as_str());
        assert(head =~= seq!['!']);
        Some(s)
    }
}

// ───────────────────────────── slider ────────────────────────────────────────

proof fn lemma_nat_text_digits(n: nat)
    ensures
        nat_text(n).len() > 0,
        all_decimal(nat_text(n)),
        decimal_value(nat_text(n)) == n,
    decreases n,
{
    assert(forall|i: int| 0 <= i < 10 ==> #[trigger] decimal_digits()[i] as int == 48 + i);
    if n >= 10 {
        lemma_nat_text_digits(n / 10);
        let p = nat_text(n / 10);
        let s = p.push(decimal_digits()[(n % 10) as int]);
        assert(s.drop_last() =~= p);
        assert forall|i: int| 0 <= i < s.len() implies '0' <= #[trigger] s[i] && s[i] <= '9' by {
            if i < p.len() {
                assert(s[i] == p[i]);
            }
        }
        let d = (n % 10) as int;
        assert(s.last() as int == 48 + d);
        assert(decimal_value(s) == decimal_value(p) * 10 + d);
        assert((n / 10) * 10 + n % 10 == n) by (nonlinear_arith);
    } else {
        let s = nat_text(n);
        assert(s.drop_last() =~= Seq::<char>::empty());
        assert(decimal_value(Seq::<char>::empty()) == 0);
        assert(s.last() as int == 48 + n);
        assert(decimal_value(s) == decimal_value(s.drop_last()) * 10 + (s.last() as int - 48));
    }
}

/// What `str::parse::<i32>` accepts: an optional `+` or `-`, then at least
/// one decimal digit, denoting a value within `i32`.
pub open spec fn parse_i32_spec(s: Seq<char>) -> Option<i32> {
    let negative = s.len() > 0 && s[0] == '-';
    let digits = if s.len() > 0 && (s[0] == '+' || s[0] == '-') {
        s.drop_first()
    } else {
        s
    };
    if digits.len() > 0 && all_decimal(digits) {
        let v: int = if negative { -decimal_value(digits) } else { decimal_value(digits) as int };
        if i32::MIN <= v && v <= i32::MAX {
            Some(v as i32)
        } else {
            None
        }
    } else {
        None
    }
}

/// Reading back what `Display` writes gives the same number: every `i32`
/// written in decimal (with `-` when negative) parses to itself, and a
/// non-negative one also parses with a leading `+`.
pub proof fn lemma_parse_i32_of_text(v: i32)
    ensures
        parse_i32_spec(int_text(v as int)) == Some(v),
        v >= 0 ==> parse_i32_spec(seq!['+'] + int_text(v as int)) == Some(v),
{
    if v < 0 {
        let n = (-(v as int)) as nat;
        lemma_nat_text_digits(n);
        assert((seq!['-'] + nat_text(n)).drop_first() =~= nat_text(n));
    } else {
        let n = v as nat;
        lemma_nat_text_digits(n);
        assert('0' <= nat_text(n)[0] && nat_text(n)[0] <= '9');
        assert((seq!['+'] + nat_text(n)).drop_first() =~= nat_text(n));
    }
}

pub open spec fn all_decimal(s: Seq<char>) -> bool {
    forall|i: int| 0 <= i < s.len() ==> '0' <= #[trigger] s[i] && s[i] <= '9'
}

/// The number a sequence of decimal digits denotes.
pub open spec fn decimal_value(s: Seq<char>) -> nat
    decreases s.len(),
{
    if s.len() == 0 {
        0
    } else {
        decimal_value(s.drop_last()) * 10 + (if '0' <= s.last() && s.last() <= '9' {
            (s.last() as int - '0' as int) as nat
        } else {
            0nat
        })
    }
}

proof fn lemma_decimal_prefix(s: Seq<char>, j: int)
    requires
        0 <= j <= s.len(),
    ensures
        decimal_value(s.take(j)) <= decimal_value(s),
    decreases s.len(),
{
    if j < s.len() {
        lemma_decimal_prefix(s.drop_last(), j);
        assert(s.drop_last().take(j) =~= s.take(j));
    } else {
        assert(s.take(j) =~= s);
    }
}

/// The slider's new value from the range input's text, as `parse::<i32>`
/// reads it; `None` leaves the value unchanged.
pub fn parse_slider_value(text: &str) -> (r: Option<i32>)
    ensures
        r == parse_i32_spec(text@),
{
    let v = crate::text::chars_of(text);
    let n = v.len();
    let mut i: usize = 0;
    let negative = n > 0 && v[0] == '-';
    if n > 0 && (v[0] == '+' || v[0] == '-') {
        i = 1;
    }
    let start = i;
    let ghost digits = v@.subrange(start as int, n as int);
    assert(digits =~= (if text@.len() > 0 && (text@[0] == '+' || text@[0] == '-') {
        text@.drop_first()
    } else {
        text@
    }));
    if i == n {
        return None;
    }
    // The magnitude may reach 2^31 (for i32::MIN); keep it in an i64.
    let mut acc: i64 = 0;
    assert(v@.subrange(start as int, i as int) =~= Seq::<char>::empty());
    while i < n
        invariant
            start <= i <= n,
            n == v@.len(),
            v@ == text@,
            negative == (text@.len() > 0 && text@[0] == '-'),
            digits == v@.subrange(start as int, n as int),
            digits == (if text@.len() > 0 && (text@[0] == '+' || text@[0] == '-') {
                text@.drop_first()
            } else {
                text@
            }),
            all_decimal(v@.subrange(start as int, i as int)),
            acc == decimal_value(v@.subrange(start as int, i as int)),
            acc <= 0x8000_0000,
        decreases n - i,
    {
        let c = v[i];
        let ghost pre = v@.subrange(start as int, i as int);
        let ghost next = v@.subrange(start as int, i + 1);
        assert(next.drop_last() =~= pre);
        assert(next.last() == c);
        if !('0' <= c && c <= '9') {
            assert(digits[i - start] == c);
            return None;
        }
        let d = (c as u32 - '0' as u32) as i64;
        let next_acc = acc * 10 + d;
        assert(next_acc == decimal_value(next));
        if next_acc > 0x8000_0000 {
            proof {
                lemma_decimal_prefix(digits, (i + 1 - start) as int);
                assert(digits.take((i + 1 - start) as int) =~= next);
            }
            return None;
        }
        acc = next_acc;
        assert forall|j: int| 0 <= j < next.len() implies '0' <= #[trigger] next[j] && next[j] <= '9' by {
            if j < pre.len() {
                assert(next[j] == pre[j]);
            }
        }
        i = i + 1;
    }
    assert(v@.subrange(start as int, n as int) == digits);
    if negative {
        Some((-acc) as i32)
    } else if acc <= 0x7fff_ffff {
        Some(acc as i32)
    } else {
        None
    }
}

} // verus!
