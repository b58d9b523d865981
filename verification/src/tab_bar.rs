//! Responsive horizontal tab bar: identity validation, semantic navigation,
//! and width-dependent paging of the secondary tabs.
//!
//! Display widths are measured by the renderer and carried here as plain
//! column counts, so every layout decision below is a function of integers.
use vstd::prelude::*;
use crate::text::{decimal, push_chars, push_decimal};

verus! {

/// Columns taken by the `|` divider between the main tab and the secondary tabs.
pub const DIVIDER_COLUMNS: u16 = 1;
/// Padding on the left of the divider.
pub const DIVIDER_PADDING_LEFT: u16 = 1;
/// Padding on the right of the divider.
pub const DIVIDER_PADDING_RIGHT: u16 = 2;
/// Columns taken by the `...` truncation marker.
pub const ELLIPSIS_COLUMNS: u16 = 3;
/// Columns taken by one paging arrow (`←` or `→`).
pub const OVERFLOW_ARROW_COLUMNS: u16 = 1;

/// Saturates a non-negative integer into the `u16` column range.
pub open spec fn sat(x: int) -> u16 {
    if x > u16::MAX {
        u16::MAX
    } else if x < 0 {
        0
    } else {
        x as u16
    }
}

pub open spec fn min_u16(a: u16, b: u16) -> u16 {
    if a <= b {
        a
    } else {
        b
    }
}

/// Text together with the number of terminal columns it occupies.
#[derive(Clone, Debug, PartialEq, Eq)]
pub struct TuiMeasuredText {
    pub text: String,
    pub columns: u16,
}

/// Stable tab data rendered by the tab bar.
///
/// `label_columns` is the display width of `label`; `first_grapheme_columns`
/// is the width of the label's first grapheme that has a non-zero width (1 when
/// there is none).
#[derive(Clone, Debug, PartialEq, Eq)]
pub struct TuiTab {
    pub key: String,
    pub label: String,
    pub label_columns: u16,
    pub first_grapheme_columns: u16,
    pub leading: Option<TuiMeasuredText>,
}

impl TuiTab {
    /// Creates a tab with stable identity and no leading text.
    pub fn new(key: String, label: String, label_columns: u16, first_grapheme_columns: u16) -> (tab:
        Self)
        ensures
            tab.key@ == key@,
            tab.label@ == label@,
            tab.label_columns == label_columns,
            tab.first_grapheme_columns == first_grapheme_columns,
            tab.leading is None,
    {
        TuiTab { key, label, label_columns, first_grapheme_columns, leading: None }
    }

    /// Adds text rendered immediately before the tab label.
    pub fn with_leading_text(self, text: String, columns: u16) -> (tab: Self)
        ensures
            tab.key == self.key,
            tab.label == self.label,
            tab.label_columns == self.label_columns,
            tab.first_grapheme_columns == self.first_grapheme_columns,
            tab.leading == Some(TuiMeasuredText { text, columns }),
    {
        TuiTab { leading: Some(TuiMeasuredText { text, columns }), ..self }
    }
}

/// Caller-owned semantic state and presentation options for a tab bar.
#[derive(Clone, Debug, PartialEq, Eq)]
pub struct TuiTabBarConfig {
    pub leading: Option<TuiMeasuredText>,
    pub main_tab: Option<TuiTab>,
    pub tabs: Vec<TuiTab>,
    pub selected_key: Option<String>,
    pub focused: bool,
    pub page_anchor: Option<String>,
    pub reveal_selected: bool,
    pub maximum_label_columns: Option<u16>,
    pub tab_padding_columns: u16,
    pub secondary_gap_columns: u16,
}

impl TuiTabBarConfig {
    /// Creates a neutral configuration for the supplied secondary tabs.
    pub fn new(tabs: Vec<TuiTab>) -> (config: Self)
        ensures
            config.tabs == tabs,
            config.leading is None,
            config.main_tab is None,
            config.selected_key is None,
            !config.focused,
            config.page_anchor is None,
            !config.reveal_selected,
            config.maximum_label_columns is None,
            config.tab_padding_columns == 1,
            config.secondary_gap_columns == 1,
    {
        TuiTabBarConfig {
            leading: None,
            main_tab: None,
            tabs,
            selected_key: None,
            focused: false,
            page_anchor: None,
            reveal_selected: false,
            maximum_label_columns: None,
            tab_padding_columns: 1,
            secondary_gap_columns: 1,
        }
    }

    /// Main tab first (when present), then the secondary tabs, in semantic order.
    pub open spec fn all_tabs(self) -> Seq<TuiTab> {
        match self.main_tab {
            Some(main) => seq![main].add(self.tabs@),
            None => self.tabs@,
        }
    }
}

/// Maximum display-cell width assigned to a tab label.
pub open spec fn spec_configured_label_width(tab: TuiTab, max_label: Option<u16>) -> u16 {
    match max_label {
        Some(cap) => min_u16(cap, tab.label_columns),
        None => tab.label_columns,
    }
}

/// Number of content pieces in a tab: its leading text and a non-empty label.
pub open spec fn content_count(tab: TuiTab) -> int {
    (if tab.leading is Some { 1int } else { 0int }) + (if tab.label@.len() > 0 { 1int } else {
        0int
    })
}

pub open spec fn leading_columns(tab: TuiTab) -> int {
    match tab.leading {
        Some(leading) => leading.columns as int,
        None => 0,
    }
}

/// Non-label cells of a tab: horizontal padding, leading text, and its separator.
pub open spec fn spec_tab_fixed_columns(tab: TuiTab, padding: u16) -> u16 {
    sat(2 * padding + leading_columns(tab) + (if content_count(tab) > 1 { 1int } else { 0int }))
}

/// Natural width of a tab after applying its configured label cap.
pub open spec fn spec_natural_tab_width(tab: TuiTab, padding: u16, max_label: Option<u16>) -> u16 {
    sat(spec_tab_fixed_columns(tab, padding) + spec_configured_label_width(tab, max_label))
}

/// Minimum label width that shows the full label or one grapheme plus ellipsis.
pub open spec fn spec_minimum_visible_label_width(tab: TuiTab) -> u16 {
    if tab.label_columns <= ELLIPSIS_COLUMNS {
        tab.label_columns
    } else {
        min_u16(tab.label_columns, sat(ELLIPSIS_COLUMNS + tab.first_grapheme_columns))
    }
}

/// Minimum width that preserves fixed tab content and visible label content.
pub open spec fn spec_minimum_tab_width(tab: TuiTab, padding: u16, max_label: Option<u16>) -> u16 {
    sat(
        spec_tab_fixed_columns(tab, padding) + min_u16(
            spec_minimum_visible_label_width(tab),
            spec_configured_label_width(tab, max_label),
        ),
    )
}

/// Maximum display-cell width assigned to a tab label.
pub fn configured_label_width(tab: &TuiTab, config: &TuiTabBarConfig) -> (width: u16)
    ensures
        width == spec_configured_label_width(*tab, config.maximum_label_columns),
{
    match config.maximum_label_columns {
        Some(cap) => if cap <= tab.label_columns {
            cap
        } else {
            tab.label_columns
        },
        None => tab.label_columns,
    }
}

/// Counts non-label cells: horizontal padding, leading text, and its separator.
pub fn tab_fixed_columns(tab: &TuiTab, padding_columns: u16) -> (width: u16)
    ensures
        width == spec_tab_fixed_columns(*tab, padding_columns),
{
    let leading: u16 = match &tab.leading {
        Some(leading) => leading.columns,
        None => 0,
    };
    let count: u16 = (if tab.leading.is_some() { 1u16 } else { 0u16 }) + (if tab.label.as_str().is_empty() {
        0u16
    } else {
        1u16
    });
    let separator: u16 = if count > 1 { 1 } else { 0 };
    let doubled: u16 = if padding_columns > u16::MAX / 2 {
        u16::MAX
    } else {
        padding_columns * 2
    };
    doubled.saturating_add(leading).saturating_add(separator)
}

/// Natural width of a tab after applying its configured label cap.
pub fn natural_tab_width(tab: &TuiTab, config: &TuiTabBarConfig) -> (width: u16)
    ensures
        width == spec_natural_tab_width(
            *tab,
            config.tab_padding_columns,
            config.maximum_label_columns,
        ),
{
    tab_fixed_columns(tab, config.tab_padding_columns).saturating_add(
        configured_label_width(tab, config),
    )
}

/// Minimum label width that shows the full label or one grapheme plus ellipsis.
pub fn minimum_visible_label_width(tab: &TuiTab) -> (width: u16)
    ensures
        width == spec_minimum_visible_label_width(*tab),
{
    let label_width = tab.label_columns;
    if label_width <= ELLIPSIS_COLUMNS {
        return label_width;
    }
    let candidate = ELLIPSIS_COLUMNS.saturating_add(tab.first_grapheme_columns);
    if label_width <= candidate {
        label_width
    } else {
        candidate
    }
}

/// Minimum label width that shows content rather than only ellipsis dots.
pub fn minimum_label_width(tab: &TuiTab, config: &TuiTabBarConfig) -> (width: u16)
    ensures
        width == min_u16(
            spec_minimum_visible_label_width(*tab),
            spec_configured_label_width(*tab, config.maximum_label_columns),
        ),
{
    let visible = minimum_visible_label_width(tab);
    let configured = configured_label_width(tab, config);
    if visible <= configured {
        visible
    } else {
        configured
    }
}

/// Minimum width that preserves fixed tab content and visible label content.
pub fn minimum_tab_width(tab: &TuiTab, config: &TuiTabBarConfig) -> (width: u16)
    ensures
        width == spec_minimum_tab_width(
            *tab,
            config.tab_padding_columns,
            config.maximum_label_columns,
        ),
{
    tab_fixed_columns(tab, config.tab_padding_columns).saturating_add(
        minimum_label_width(tab, config),
    )
}


/// First index at or after `i` whose tab key equals `key`.
pub open spec fn key_position_from(tabs: Seq<TuiTab>, key: Seq<char>, i: int) -> Option<int>
    decreases tabs.len() - i,
{
    if i < 0 || i >= tabs.len() {
        None
    } else if tabs[i].key@ == key {
        Some(i)
    } else {
        key_position_from(tabs, key, i + 1)
    }
}

/// First index whose tab key equals `key`.
pub open spec fn key_position(tabs: Seq<TuiTab>, key: Seq<char>) -> Option<int> {
    key_position_from(tabs, key, 0)
}

/// Whether the tab at `i` repeats the key of an earlier tab.
pub open spec fn repeats_earlier_key(tabs: Seq<TuiTab>, i: int) -> bool {
    exists|j: int| 0 <= j < i && #[trigger] tabs[j].key@ == tabs[i].key@
}

/// Whether the label cap of the tab at `i` is too small to show any label content.
pub open spec fn label_cap_too_small(tabs: Seq<TuiTab>, i: int, max_label: Option<u16>) -> bool {
    spec_configured_label_width(tabs[i], max_label) < spec_minimum_visible_label_width(tabs[i])
}

pub open spec fn tab_is_invalid(tabs: Seq<TuiTab>, i: int, max_label: Option<u16>) -> bool {
    repeats_earlier_key(tabs, i) || label_cap_too_small(tabs, i, max_label)
}

/// A configuration whose main and secondary tabs have distinct keys and
/// label caps that leave visible label content.
pub open spec fn valid_config(config: TuiTabBarConfig) -> bool {
    forall|i: int|
        0 <= i < config.all_tabs().len() ==> !#[trigger] tab_is_invalid(
            config.all_tabs(),
            i,
            config.maximum_label_columns,
        )
}

/// The error reported for the tab at `i`, the first invalid one.
pub open spec fn error_for_tab(
    err: TuiTabBarConfigError,
    tabs: Seq<TuiTab>,
    i: int,
    max_label: Option<u16>,
) -> bool {
    if repeats_earlier_key(tabs, i) {
        err matches TuiTabBarConfigError::DuplicateKey(key) && key@ == tabs[i].key@
    } else {
        err matches TuiTabBarConfigError::LabelWidthTooSmall { key, configured, required }
            && key@ == tabs[i].key@ && configured == spec_configured_label_width(
            tabs[i],
            max_label,
        ) && required == spec_minimum_visible_label_width(tabs[i])
    }
}

/// `err` reports the first invalid tab of `config`.
pub open spec fn is_config_error(config: TuiTabBarConfig, err: TuiTabBarConfigError) -> bool {
    exists|i: int|
        0 <= i < config.all_tabs().len() && #[trigger] tab_is_invalid(
            config.all_tabs(),
            i,
            config.maximum_label_columns,
        ) && (forall|j: int|
            0 <= j < i ==> !#[trigger] tab_is_invalid(
                config.all_tabs(),
                j,
                config.maximum_label_columns,
            )) && error_for_tab(err, config.all_tabs(), i, config.maximum_label_columns)
}

/// Invalid caller-supplied tab-bar configuration.
#[derive(Clone, Debug, PartialEq, Eq)]
pub enum TuiTabBarConfigError {
    /// A stable key was assigned to more than one main or secondary tab.
    DuplicateKey(String),
    /// The label cap cannot show the complete label or one grapheme plus `...`.
    LabelWidthTooSmall { key: String, configured: u16, required: u16 },
}

/// Semantic interactions emitted by the tab bar.
#[derive(Clone, Debug, PartialEq, Eq)]
pub enum TuiTabBarEvent {
    SelectTab(String),
    PageChanged(String),
}

/// Direction used to resolve an adjacent semantic tab.
#[derive(Clone, Copy, Debug, PartialEq, Eq)]
pub enum TuiTabBarNavigationDirection {
    Previous,
    Next,
}

/// Edge used to resolve a tab from the secondary collection.
#[derive(Clone, Copy, Debug, PartialEq, Eq)]
pub enum TuiTabBarSecondaryEdge {
    First,
    Last,
}

/// Actions dispatched by tab and overflow hit targets.
#[derive(Clone, Debug)]
pub enum TuiTabBarAction {
    SelectTab(String),
    PageChanged(String),
}

/// Checks the tab at semantic position `i` against the keys already seen.
fn check_tab(
    keys: &mut Vec<String>,
    tab: &TuiTab,
    config: &TuiTabBarConfig,
    Ghost(i): Ghost<int>,
) -> (res: Result<(), TuiTabBarConfigError>)
    requires
        0 <= i < config.all_tabs().len(),
        *tab == config.all_tabs()[i],
        old(keys)@.len() == i,
        forall|k: int| 0 <= k < i ==> #[trigger] old(keys)@[k]@ == config.all_tabs()[k].key@,
    ensures
        match res {
            Ok(()) => !tab_is_invalid(config.all_tabs(), i, config.maximum_label_columns)
                && final(keys)@ == old(keys)@.push(final(keys)@[i]) && final(keys)@[i]@
                == tab.key@,
            Err(err) => tab_is_invalid(config.all_tabs(), i, config.maximum_label_columns)
                && error_for_tab(err, config.all_tabs(), i, config.maximum_label_columns),
        },
{
    let ghost all = config.all_tabs();
    let mut j: usize = 0;
    while j < keys.len()
        invariant
            keys@ == old(keys)@,
            keys@.len() == i,
            all == config.all_tabs(),
            0 <= i < all.len(),
            *tab == all[i],
            j <= keys@.len(),
            forall|k: int| 0 <= k < i ==> #[trigger] keys@[k]@ == all[k].key@,
            forall|k: int| 0 <= k < j ==> all[k].key@ != all[i].key@,
        decreases keys@.len() - j,
    {
        assert(keys@[j as int]@ == all[j as int].key@);
        assert(tab.key@ == all[i].key@);
        if keys[j] == tab.key {
            assert(all[j as int].key@ == all[i].key@);
            assert(repeats_earlier_key(all, i));
            return Err(TuiTabBarConfigError::DuplicateKey(tab.key.clone()));
        }
        j = j + 1;
    }
    assert(!repeats_earlier_key(all, i));
    let required = minimum_visible_label_width(tab);
    let configured = configured_label_width(tab, config);
    if configured < required {
        return Err(
            TuiTabBarConfigError::LabelWidthTooSmall { key: tab.key.clone(), configured, required },
        );
    }
    keys.push(tab.key.clone());
    Ok(())
}

/// Validates tab identities and label widths, returning the live keys in
/// semantic order.
pub fn validated_live_keys(config: &TuiTabBarConfig) -> (res: Result<Vec<String>, TuiTabBarConfigError>)
    ensures
        match res {
            Ok(keys) => valid_config(*config) && keys@.len() == config.all_tabs().len() && forall|
                i: int,
            |
                0 <= i < keys@.len() ==> #[trigger] keys@[i]@ == config.all_tabs()[i].key@,
            Err(err) => is_config_error(*config, err),
        },
{
    let ghost all = config.all_tabs();
    let ghost max_label = config.maximum_label_columns;
    let mut keys: Vec<String> = Vec::new();
    let mut offset: usize = 0;
    if let Some(main) = &config.main_tab {
        match check_tab(&mut keys, main, config, Ghost(0)) {
            Ok(()) => {},
            Err(err) => {
                assert(tab_is_invalid(all, 0, max_label));
                return Err(err);
            },
        }
        offset = 1;
    }
    let mut i: usize = 0;
    while i < config.tabs.len()
        invariant
            all == config.all_tabs(),
            max_label == config.maximum_label_columns,
            offset == (if config.main_tab is Some { 1usize } else { 0usize }),
            all.len() == offset + config.tabs@.len(),
            i <= config.tabs@.len(),
            keys@.len() == offset + i,
            forall|k: int| 0 <= k < offset + i ==> #[trigger] keys@[k]@ == all[k].key@,
            forall|k: int| 0 <= k < offset + i ==> !#[trigger] tab_is_invalid(all, k, max_label),
        decreases config.tabs@.len() - i,
    {
        let ghost pos = offset + i;
        assert(config.tabs@[i as int] == all[pos]);
        match check_tab(&mut keys, &config.tabs[i], config, Ghost(pos)) {
            Ok(()) => {},
            Err(err) => {
                assert(tab_is_invalid(all, pos, max_label));
                return Err(err);
            },
        }
        i = i + 1;
    }
    Ok(keys)
}

/// The key of the tab adjacent to the selected one in semantic order,
/// wrapping at either end.
pub open spec fn spec_navigation_target(
    config: TuiTabBarConfig,
    direction: TuiTabBarNavigationDirection,
) -> Option<Seq<char>> {
    let order = config.all_tabs();
    match config.selected_key {
        None => None,
        Some(selected) => match key_position(order, selected@) {
            None => None,
            Some(p) => Some(
                order[match direction {
                    TuiTabBarNavigationDirection::Previous => if p == 0 {
                        order.len() - 1
                    } else {
                        p - 1
                    },
                    TuiTabBarNavigationDirection::Next => (p + 1) % (order.len() as int),
                }].key@,
            ),
        },
    }
}

/// A position in the semantic order: the main tab or a secondary index.
enum TabPosition {
    Main,
    Secondary(usize),
}

spec fn position_index(config: TuiTabBarConfig, p: TabPosition) -> int {
    match p {
        TabPosition::Main => 0,
        TabPosition::Secondary(i) => (if config.main_tab is Some { 1int } else { 0int }) + i,
    }
}

spec fn position_valid(config: TuiTabBarConfig, p: TabPosition) -> bool {
    match p {
        TabPosition::Main => config.main_tab is Some,
        TabPosition::Secondary(i) => i < config.tabs@.len(),
    }
}

fn key_at_position(config: &TuiTabBarConfig, p: TabPosition) -> (key: String)
    requires
        position_valid(*config, p),
    ensures
        key@ == config.all_tabs()[position_index(*config, p)].key@,
{
    match p {
        TabPosition::Main => match &config.main_tab {
            Some(main) => main.key.clone(),
            None => {
                assert(false);
                String::new()
            },
        },
        TabPosition::Secondary(i) => config.tabs[i].key.clone(),
    }
}

/// Resolves the adjacent tab in semantic order, wrapping at either end.
pub fn resolve_navigation_target(config: &TuiTabBarConfig, direction: TuiTabBarNavigationDirection) -> (target:
    Option<String>)
    ensures
        match spec_navigation_target(*config, direction) {
            None => target is None,
            Some(key) => target matches Some(t) && t@ == key,
        },
{
    let selected = match &config.selected_key {
        Some(selected) => selected,
        None => return None,
    };
    let ghost order = config.all_tabs();
    let ghost offset: int = if config.main_tab is Some { 1int } else { 0int };
    let n = config.tabs.len();
    let has_main = config.main_tab.is_some();
    let mut main_matches = false;
    if let Some(main) = &config.main_tab {
        main_matches = main.key == *selected;
    }
    let position: TabPosition = if main_matches {
        assert(key_position(order, selected@) == Some(0int));
        TabPosition::Main
    } else {
        assert(key_position(order, selected@) == key_position_from(order, selected@, offset));
        let mut i: usize = 0;
        let mut found = false;
        while i < n && !found
            invariant
                n == config.tabs@.len(),
                order == config.all_tabs(),
                offset == (if config.main_tab is Some { 1int } else { 0int }),
                i <= n,
                key_position(order, selected@) == key_position_from(order, selected@, offset + i),
                found ==> i < n && order[offset + i].key@ == selected@,
            decreases n - i + (if found { 0int } else { 1int }),
        {
            assert(order[offset + i] == config.tabs@[i as int]);
            if config.tabs[i].key == *selected {
                found = true;
            } else {
                i = i + 1;
            }
        }
        if !found {
            return None;
        }
        TabPosition::Secondary(i)
    };
    let target: TabPosition = match direction {
        TuiTabBarNavigationDirection::Previous => match position {
            TabPosition::Main => if n > 0 {
                TabPosition::Secondary(n - 1)
            } else {
                TabPosition::Main
            },
            TabPosition::Secondary(i) => if i > 0 {
                TabPosition::Secondary(i - 1)
            } else if has_main {
                TabPosition::Main
            } else {
                TabPosition::Secondary(n - 1)
            },
        },
        TuiTabBarNavigationDirection::Next => match position {
            TabPosition::Main => if n > 0 {
                TabPosition::Secondary(0)
            } else {
                TabPosition::Main
            },
            TabPosition::Secondary(i) => if i + 1 < n {
                TabPosition::Secondary(i + 1)
            } else if has_main {
                TabPosition::Main
            } else {
                TabPosition::Secondary(0)
            },
        },
    };
    proof {
        let p = position_index(*config, position);
        let len = order.len() as int;
        assert(len == offset + n);
        assert(key_position(order, selected@) == Some(p));
        assert(position_valid(*config, target));
        let t = position_index(*config, target);
        match direction {
            TuiTabBarNavigationDirection::Previous => {
                assert(t == (if p == 0 { len - 1 } else { p - 1 }));
            },
            TuiTabBarNavigationDirection::Next => {
                assert(0 <= p < len);
                if p + 1 < len {
                    assert((p + 1) % len == p + 1) by (nonlinear_arith)
                        requires 0 <= p + 1 < len;
                } else {
                    assert((p + 1) % len == 0) by (nonlinear_arith)
                        requires p + 1 == len, len > 0;
                }
                assert(t == (p + 1) % len);
            },
        }
    }
    Some(key_at_position(config, target))
}

/// Returns the stable key at one edge of the secondary-tab collection.
pub fn resolve_secondary_edge_target(config: &TuiTabBarConfig, edge: TuiTabBarSecondaryEdge) -> (target:
    Option<String>)
    ensures
        config.tabs@.len() == 0 ==> target is None,
        config.tabs@.len() > 0 ==> (target matches Some(t) && t@ == match edge {
            TuiTabBarSecondaryEdge::First => config.tabs@[0].key@,
            TuiTabBarSecondaryEdge::Last => config.tabs@.last().key@,
        }),
{
    let n = config.tabs.len();
    if n == 0 {
        return None;
    }
    match edge {
        TuiTabBarSecondaryEdge::First => Some(config.tabs[0].key.clone()),
        TuiTabBarSecondaryEdge::Last => Some(config.tabs[n - 1].key.clone()),
    }
}

/// Width occupied before pageable tabs and overflow controls are added.
pub open spec fn spec_fixed_prefix_width(config: TuiTabBarConfig) -> u16 {
    let leading: int = match config.leading {
        Some(text) => text.columns as int,
        None => 0,
    };
    match config.main_tab {
        Some(main) => sat(
            leading + spec_natural_tab_width(
                main,
                config.tab_padding_columns,
                config.maximum_label_columns,
            ) + (if config.tabs@.len() > 0 {
                DIVIDER_COLUMNS + DIVIDER_PADDING_LEFT + DIVIDER_PADDING_RIGHT
            } else {
                0int
            }),
        ),
        None => sat(leading),
    }
}

/// Columns reserved by the visible tab at offset `idx` of a page showing
/// `count` tabs from `start`: all but the final visible tab take their natural
/// width, the final one its minimum width; every tab after the first is
/// preceded by a gap.
pub open spec fn visible_tab_columns(config: TuiTabBarConfig, start: int, count: int, idx: int) -> int {
    let tab = config.tabs@[start + idx];
    (if idx > 0 { config.secondary_gap_columns as int } else { 0int }) + (if idx + 1 == count {
        spec_minimum_tab_width(tab, config.tab_padding_columns, config.maximum_label_columns) as int
    } else {
        spec_natural_tab_width(tab, config.tab_padding_columns, config.maximum_label_columns) as int
    })
}

/// Columns reserved by the first `k` visible tabs of a page.
pub open spec fn visible_tabs_columns(config: TuiTabBarConfig, start: int, count: int, k: int) -> int
    decreases k,
{
    if k <= 0 {
        0
    } else {
        visible_tabs_columns(config, start, count, k - 1) + visible_tab_columns(
            config,
            start,
            count,
            k - 1,
        )
    }
}

/// End (exclusive) of the tabs shown by a page of `count` tabs from `start`.
pub open spec fn visible_end(config: TuiTabBarConfig, start: int, count: int) -> int {
    if start + count <= config.tabs@.len() {
        start + count
    } else {
        config.tabs@.len() as int
    }
}

/// Unsaturated minimum row width of a page showing `count` tabs from `start`.
pub open spec fn row_columns(config: TuiTabBarConfig, start: int, count: int) -> int {
    let end = visible_end(config, start, count);
    let has_previous = start > 0;
    let has_next = end < config.tabs@.len();
    let gap = config.secondary_gap_columns as int;
    spec_fixed_prefix_width(config) as int + (if has_previous {
        OVERFLOW_ARROW_COLUMNS + (if count > 0 || has_next { gap } else { 0int })
    } else {
        0int
    }) + visible_tabs_columns(config, start, count, end - start) + (if has_next {
        (if count > 0 { gap } else { 0int }) + OVERFLOW_ARROW_COLUMNS
    } else {
        0int
    })
}

/// Minimum total row width that can display `count` tabs from `start`.
pub open spec fn spec_minimum_row_width(config: TuiTabBarConfig, start: int, count: int) -> u16 {
    sat(row_columns(config, start, count))
}

/// Width occupied before pageable tabs and overflow controls are added.
pub fn fixed_prefix_width(config: &TuiTabBarConfig) -> (width: u16)
    ensures
        width == spec_fixed_prefix_width(*config),
{
    let mut width: u16 = match &config.leading {
        Some(text) => text.columns,
        None => 0,
    };
    if let Some(main_tab) = &config.main_tab {
        width = width.saturating_add(natural_tab_width(main_tab, config));
        if config.tabs.len() > 0 {
            width =
                width.saturating_add(DIVIDER_COLUMNS).saturating_add(
                    DIVIDER_PADDING_LEFT,
                ).saturating_add(DIVIDER_PADDING_RIGHT);
        }
    }
    width
}

/// Computes the minimum total row width that can display `visible_count` tabs.
///
/// All but the final visible tab reserve their natural widths. The final tab
/// reserves only its fixed chrome plus its minimum visible label.
pub fn minimum_row_width(config: &TuiTabBarConfig, start: usize, visible_count: usize) -> (width: u16)
    requires
        start <= config.tabs@.len(),
    ensures
        width == spec_minimum_row_width(*config, start as int, visible_count as int),
{
    let n = config.tabs.len();
    let end: usize = if visible_count <= n - start {
        start + visible_count
    } else {
        n
    };
    let has_previous = start > 0;
    let has_next = end < n;
    let gap = config.secondary_gap_columns;
    let ghost prefix_int: int = spec_fixed_prefix_width(*config) as int + (if has_previous {
        OVERFLOW_ARROW_COLUMNS + (if visible_count > 0 || has_next { gap as int } else { 0int })
    } else {
        0int
    });
    let mut width = fixed_prefix_width(config);
    if has_previous {
        width = width.saturating_add(OVERFLOW_ARROW_COLUMNS);
        if visible_count > 0 || has_next {
            width = width.saturating_add(gap);
        }
    }
    assert(width == sat(prefix_int));
    let mut idx: usize = 0;
    while idx < end - start
        invariant
            n == config.tabs@.len(),
            start <= end <= n,
            end == visible_end(*config, start as int, visible_count as int),
            gap == config.secondary_gap_columns,
            idx <= end - start,
            prefix_int >= 0,
            width == sat(
                prefix_int + visible_tabs_columns(
                    *config,
                    start as int,
                    visible_count as int,
                    idx as int,
                ),
            ),
            visible_tabs_columns(*config, start as int, visible_count as int, idx as int) >= 0,
        decreases end - start - idx,
    {
        let tab = &config.tabs[start + idx];
        if idx > 0 {
            width = width.saturating_add(gap);
        }
        let tab_width = if idx + 1 == visible_count {
            minimum_tab_width(tab, config)
        } else {
            natural_tab_width(tab, config)
        };
        width = width.saturating_add(tab_width);
        idx = idx + 1;
    }
    if has_next {
        if visible_count > 0 {
            width = width.saturating_add(gap);
        }
        width = width.saturating_add(OVERFLOW_ARROW_COLUMNS);
    }
    width
}

/// Largest `c` in `1..=limit` whose page from `start` fits in `width`, or 0.
pub open spec fn largest_fitting_count(
    config: TuiTabBarConfig,
    start: int,
    width: u16,
    limit: int,
) -> int
    decreases limit,
{
    if limit <= 0 {
        0
    } else if spec_minimum_row_width(config, start, limit) <= width {
        limit
    } else {
        largest_fitting_count(config, start, width, limit - 1)
    }
}

/// Largest number of tabs from `start` whose minimum row width fits in `width`.
pub open spec fn spec_visible_count_at_width(config: TuiTabBarConfig, start: int, width: u16) -> int {
    largest_fitting_count(config, start, width, config.tabs@.len() - start)
}

/// Largest number of tabs whose minimum row width fits in `width`.
pub fn visible_count_at_width(config: &TuiTabBarConfig, start: usize, width: u16) -> (count: usize)
    requires
        start <= config.tabs@.len(),
    ensures
        count == spec_visible_count_at_width(*config, start as int, width),
        count <= config.tabs@.len() - start,
{
    let mut count: usize = config.tabs.len() - start;
    while count > 0
        invariant
            start <= config.tabs@.len(),
            count <= config.tabs@.len() - start,
            spec_visible_count_at_width(*config, start as int, width) == largest_fitting_count(
                *config,
                start as int,
                width,
                count as int,
            ),
        decreases count,
    {
        if minimum_row_width(config, start, count) <= width {
            return count;
        }
        count = count - 1;
    }
    0
}

proof fn lemma_largest_fitting_count_bounds(config: TuiTabBarConfig, start: int, width: u16, limit: int)
    ensures
        0 <= largest_fitting_count(config, start, width, limit),
        limit >= 0 ==> largest_fitting_count(config, start, width, limit) <= limit,
    decreases limit,
{
    if limit > 0 {
        lemma_largest_fitting_count_bounds(config, start, width, limit - 1);
    }
}

/// One width-specific secondary-page structure.
#[derive(Clone, Copy, Debug, PartialEq, Eq, Structural)]
pub struct PageVariant {
    pub start: usize,
    pub visible_count: usize,
    pub previous_start: Option<usize>,
    pub next_start: Option<usize>,
}

/// The page packed from `start` at `width`, without its previous page.
pub open spec fn spec_page_from_start(config: TuiTabBarConfig, start: int, width: u16) -> PageVariant {
    let count = spec_visible_count_at_width(config, start, width);
    let candidate = if count > 0 {
        start + count
    } else {
        start + 1
    };
    PageVariant {
        start: start as usize,
        visible_count: count as usize,
        previous_start: None,
        next_start: if candidate < config.tabs@.len() {
            Some(candidate as usize)
        } else {
            None
        },
    }
}

/// Packs one page beginning at `start`, without resolving its previous page.
pub fn page_from_start(config: &TuiTabBarConfig, start: usize, width: u16) -> (page: PageVariant)
    requires
        start <= config.tabs@.len(),
    ensures
        page == spec_page_from_start(*config, start as int, width),
        page.visible_count <= config.tabs@.len() - start,
        page.next_start matches Some(next) ==> start < next < config.tabs@.len(),
{
    let n = config.tabs.len();
    let visible_count = visible_count_at_width(config, start, width);
    let next_start: Option<usize> = if visible_count > 0 {
        if start + visible_count < n {
            Some(start + visible_count)
        } else {
            None
        }
    } else if start < n && start + 1 < n {
        Some(start + 1)
    } else {
        None
    };
    PageVariant { start, visible_count, previous_start: None, next_start }
}

/// The deterministic non-overlapping page sequence for one width, beginning
/// at `start`, whose first page's previous page begins at `previous`.
pub open spec fn pages_from(
    config: TuiTabBarConfig,
    start: int,
    width: u16,
    previous: Option<usize>,
) -> Seq<PageVariant>
    decreases config.tabs@.len() - start,
{
    if start < 0 || start >= config.tabs@.len() {
        Seq::empty()
    } else {
        let page = PageVariant {
            previous_start: previous,
            ..spec_page_from_start(config, start, width)
        };
        match page.next_start {
            Some(next) => if next > start {
                seq![page].add(pages_from(config, next as int, width, Some(start as usize)))
            } else {
                seq![page]
            },
            None => seq![page],
        }
    }
}

/// Deterministic non-overlapping page sequence for one concrete width.
pub open spec fn spec_deterministic_pages_at_width(config: TuiTabBarConfig, width: u16) -> Seq<
    PageVariant,
> {
    pages_from(config, 0, width, None)
}

/// Deterministic non-overlapping page sequence for one concrete width.
pub fn deterministic_pages_at_width(config: &TuiTabBarConfig, width: u16) -> (pages: Vec<
    PageVariant,
>)
    ensures
        pages@ == spec_deterministic_pages_at_width(*config, width),
{
    let n = config.tabs.len();
    let mut pages: Vec<PageVariant> = Vec::new();
    let mut start: usize = 0;
    let mut previous_start: Option<usize> = None;
    while start < n
        invariant
            n == config.tabs@.len(),
            start <= n,
            spec_deterministic_pages_at_width(*config, width) == pages@.add(
                pages_from(*config, start as int, width, previous_start),
            ),
        decreases n - start,
    {
        let mut page = page_from_start(config, start, width);
        page.previous_start = previous_start;
        let next_start = page.next_start;
        pages.push(page);
        match next_start {
            Some(next) => {
                assert(pages_from(*config, start as int, width, previous_start) == seq![page].add(
                    pages_from(*config, next as int, width, Some(start)),
                ));
                previous_start = Some(start);
                start = next;
            },
            None => {
                start = n;
            },
        }
    }
    pages
}

/// Position of `key` among the secondary tabs.
pub fn secondary_position(config: &TuiTabBarConfig, key: &String) -> (position: Option<usize>)
    ensures
        match key_position(config.tabs@, key@) {
            Some(i) => position == Some(i as usize),
            None => position is None,
        },
        position matches Some(i) ==> key_position(config.tabs@, key@) == Some(i as int) && i
            < config.tabs@.len(),
{
    proof {
        lemma_key_position_from(config.tabs@, key@, 0);
    }
    let n = config.tabs.len();
    let mut i: usize = 0;
    while i < n
        invariant
            n == config.tabs@.len(),
            i <= n,
            key_position(config.tabs@, key@) == key_position_from(config.tabs@, key@, i as int),
        decreases n - i,
    {
        if config.tabs[i].key == *key {
            return Some(i);
        }
        i = i + 1;
    }
    None
}

/// The page start requested by the caller's anchor (0 when absent or stale).
pub open spec fn spec_requested_page_start(config: TuiTabBarConfig) -> int {
    if config.tabs@.len() == 0 {
        0
    } else {
        match config.page_anchor {
            Some(anchor) => match key_position(config.tabs@, anchor@) {
                Some(i) => i,
                None => 0,
            },
            None => 0,
        }
    }
}

/// The selected tab's index among the secondary tabs.
pub open spec fn spec_selected_secondary_index(config: TuiTabBarConfig) -> Option<int> {
    match config.selected_key {
        Some(selected) => key_position(config.tabs@, selected@),
        None => None,
    }
}

/// Resolves the caller's requested page anchor.
pub fn requested_page_start(config: &TuiTabBarConfig) -> (start: usize)
    ensures
        start == spec_requested_page_start(*config),
        start <= config.tabs@.len(),
{
    proof {
        if config.page_anchor is Some {
            lemma_key_position_from(config.tabs@, config.page_anchor->0@, 0);
        }
    }
    if config.tabs.len() == 0 {
        return 0;
    }
    match &config.page_anchor {
        Some(anchor) => match secondary_position(config, anchor) {
            Some(i) => i,
            None => 0,
        },
        None => 0,
    }
}

/// Resolves the secondary selected index, excluding an optional main tab.
pub fn selected_secondary_index(config: &TuiTabBarConfig) -> (index: Option<usize>)
    ensures
        match spec_selected_secondary_index(*config) {
            Some(i) => index == Some(i as usize),
            None => index is None,
        },
        index matches Some(i) ==> spec_selected_secondary_index(*config) == Some(i as int) && i
            < config.tabs@.len(),
{
    proof {
        if config.selected_key is Some {
            lemma_key_position_from(config.tabs@, config.selected_key->0@, 0);
        }
    }
    match &config.selected_key {
        Some(selected) => secondary_position(config, selected),
        None => None,
    }
}

/// Whether `page` shows the secondary tab at `index` (an empty page stands for
/// the tab at its start).
pub open spec fn page_contains(page: PageVariant, index: int) -> bool {
    (page.visible_count > 0 && page.start <= index < page.start + page.visible_count) || (
    page.visible_count == 0 && index == page.start)
}

/// First page at or after `i` that contains the secondary tab at `index`.
pub open spec fn first_page_containing(pages: Seq<PageVariant>, index: int, i: int) -> Option<int>
    decreases pages.len() - i,
{
    if i < 0 || i >= pages.len() {
        None
    } else if page_contains(pages[i], index) {
        Some(i)
    } else {
        first_page_containing(pages, index, i + 1)
    }
}

/// Number of leading pages, from `i`, that begin before `start`.
pub open spec fn pages_before(pages: Seq<PageVariant>, start: int, i: int) -> int
    decreases pages.len() - i,
{
    if i < 0 || i >= pages.len() || pages[i].start >= start {
        0
    } else {
        1 + pages_before(pages, start, i + 1)
    }
}

/// The page chosen at one concrete width, before its previous page is resolved:
/// the caller's anchored page, unless selected reveal is requested and the
/// selected tab is off that page, in which case the deterministic page that
/// shows the selected tab.
pub open spec fn spec_chosen_page(config: TuiTabBarConfig, width: u16) -> PageVariant {
    let requested_start = spec_requested_page_start(config);
    let requested = spec_page_from_start(config, requested_start, width);
    let selected = spec_selected_secondary_index(config);
    let selected_is_visible = match selected {
        Some(s) => requested_start <= s < requested_start + requested.visible_count,
        None => false,
    };
    let pages = spec_deterministic_pages_at_width(config, width);
    if config.reveal_selected && !selected_is_visible {
        match selected {
            Some(s) => match first_page_containing(pages, s, 0) {
                Some(i) => pages[i],
                None => requested,
            },
            None => requested,
        }
    } else {
        requested
    }
}

/// The page at one concrete width, with its previous page resolved from the
/// deterministic sequence.
pub open spec fn spec_page_variant_at_width(config: TuiTabBarConfig, width: u16) -> PageVariant {
    let page = spec_chosen_page(config, width);
    let pages = spec_deterministic_pages_at_width(config, width);
    let before = pages_before(pages, page.start as int, 0);
    PageVariant {
        previous_start: if before > 0 {
            Some(pages[before - 1].start)
        } else {
            None
        },
        ..page
    }
}

proof fn lemma_pages_before_bounds(pages: Seq<PageVariant>, start: int, i: int)
    requires
        0 <= i <= pages.len(),
    ensures
        0 <= pages_before(pages, start, i) <= pages.len() - i,
        forall|k: int|
            i <= k < i + pages_before(pages, start, i) ==> #[trigger] pages[k].start < start,
        i + pages_before(pages, start, i) < pages.len() ==> pages[i + pages_before(
            pages,
            start,
            i,
        )].start >= start,
    decreases pages.len() - i,
{
    if i < pages.len() && pages[i].start < start {
        lemma_pages_before_bounds(pages, start, i + 1);
    }
}

proof fn lemma_first_page_containing(pages: Seq<PageVariant>, index: int, i: int)
    requires
        0 <= i <= pages.len(),
    ensures
        match first_page_containing(pages, index, i) {
            Some(k) => i <= k < pages.len() && page_contains(pages[k], index) && forall|j: int|
                i <= j < k ==> !page_contains(#[trigger] pages[j], index),
            None => forall|j: int| i <= j < pages.len() ==> !page_contains(#[trigger] pages[j], index),
        },
    decreases pages.len() - i,
{
    if i < pages.len() && !page_contains(pages[i], index) {
        lemma_first_page_containing(pages, index, i + 1);
    }
}

/// Chooses a page at one concrete width.
///
/// The caller's anchor remains stable while the selected tab fits on that
/// page. Selected reveal re-anchors only when the selected secondary tab is
/// actually off-page at this width.
pub fn page_variant_at_width(config: &TuiTabBarConfig, width: u16) -> (page: PageVariant)
    ensures
        page == spec_page_variant_at_width(*config, width),
{
    let requested_start = requested_page_start(config);
    let requested_page = page_from_start(config, requested_start, width);
    let selected_index = selected_secondary_index(config);
    let selected_is_visible = match selected_index {
        Some(selected) => selected >= requested_start && selected - requested_start
            < requested_page.visible_count,
        None => false,
    };
    let pages = deterministic_pages_at_width(config, width);
    let mut page = requested_page;
    if config.reveal_selected && !selected_is_visible {
        if let Some(selected) = selected_index {
            proof {
                lemma_first_page_containing(pages@, selected as int, 0);
            }
            let mut i: usize = 0;
            let mut found = false;
            while i < pages.len() && !found
                invariant
                    i <= pages@.len(),
                    first_page_containing(pages@, selected as int, 0) == first_page_containing(
                        pages@,
                        selected as int,
                        i as int,
                    ),
                    found ==> i < pages@.len() && page_contains(pages@[i as int], selected as int),
                decreases pages@.len() - i + (if found { 0int } else { 1int }),
            {
                let candidate = pages[i];
                let contains = (candidate.visible_count > 0 && selected >= candidate.start
                    && selected - candidate.start < candidate.visible_count) || (
                candidate.visible_count == 0 && selected == candidate.start);
                if contains {
                    found = true;
                } else {
                    i = i + 1;
                }
            }
            if found {
                page = pages[i];
            }
        }
    }
    assert(page == spec_chosen_page(*config, width));
    let mut before: usize = 0;
    while before < pages.len() && pages[before].start < page.start
        invariant
            before <= pages@.len(),
            pages_before(pages@, page.start as int, 0) == before + pages_before(
                pages@,
                page.start as int,
                before as int,
            ),
        decreases pages@.len() - before,
    {
        before = before + 1;
    }
    page.previous_start = if before > 0 {
        Some(pages[before - 1].start)
    } else {
        None
    };
    page
}

proof fn lemma_key_position_from(tabs: Seq<TuiTab>, key: Seq<char>, i: int)
    requires
        0 <= i,
    ensures
        match key_position_from(tabs, key, i) {
            Some(k) => i <= k < tabs.len() && tabs[k].key@ == key,
            None => true,
        },
    decreases tabs.len() - i,
{
    if i < tabs.len() && tabs[i].key@ != key {
        lemma_key_position_from(tabs, key, i + 1);
    }
}

/// Whether `width` is the minimum row width of some non-empty page.
pub open spec fn is_boundary(config: TuiTabBarConfig, width: u16) -> bool {
    exists|start: int, count: int|
        0 <= start < config.tabs@.len() && 1 <= count <= config.tabs@.len() - start
            && #[trigger] spec_minimum_row_width(config, start, count) == width
}

/// `widths` lists every boundary width once, in increasing order.
pub open spec fn sorted_boundaries(config: TuiTabBarConfig, widths: Seq<u16>) -> bool {
    &&& forall|i: int, j: int| 0 <= i < j < widths.len() ==> widths[i] < widths[j]
    &&& forall|w: u16| widths.contains(w) <==> is_boundary(config, w)
}

/// Walks the boundary widths in increasing order, recording the page that
/// applies below each width at which the page changes.
pub open spec fn transitions_over(
    config: TuiTabBarConfig,
    widths: Seq<u16>,
    page: PageVariant,
    transitions: Seq<(u16, PageVariant)>,
) -> (PageVariant, Seq<(u16, PageVariant)>)
    decreases widths.len(),
{
    if widths.len() == 0 {
        (page, transitions)
    } else {
        let boundary = widths[0];
        let next = spec_page_variant_at_width(config, boundary);
        if next == page {
            transitions_over(config, widths.drop_first(), page, transitions)
        } else {
            transitions_over(
                config,
                widths.drop_first(),
                next,
                if boundary > 0 {
                    transitions.push((boundary, page))
                } else {
                    transitions
                },
            )
        }
    }
}

/// Inserts `x` into a strictly increasing vector unless it is already there.
fn insert_sorted_unique(widths: &mut Vec<u16>, x: u16)
    requires
        forall|i: int, j: int| 0 <= i < j < old(widths)@.len() ==> old(widths)@[i] < old(widths)@[j],
    ensures
        forall|i: int, j: int| 0 <= i < j < final(widths)@.len() ==> final(widths)@[i] < final(widths)@[j],
        forall|w: u16| final(widths)@.contains(w) <==> (old(widths)@.contains(w) || w == x),
{
    let mut p: usize = 0;
    while p < widths.len() && widths[p] < x
        invariant
            widths@ == old(widths)@,
            p <= widths@.len(),
            forall|k: int| 0 <= k < p ==> widths@[k] < x,
        decreases widths@.len() - p,
    {
        p = p + 1;
    }
    if p < widths.len() && widths[p] == x {
        assert(widths@[p as int] == x);
        assert(widths@.contains(x));
        return;
    }
    let ghost before = widths@;
    assert(before == old(widths)@);
    widths.insert(p, x);
    assert forall|w: u16| widths@.contains(w) <==> (old(widths)@.contains(w) || w == x) by {
        if widths@.contains(w) {
            let k = choose|k: int| 0 <= k < widths@.len() && widths@[k] == w;
            if k < p {
                assert(before[k] == w);
            } else if k > p {
                assert(before[k - 1] == w);
            }
        }
        if before.contains(w) {
            let k = choose|k: int| 0 <= k < before.len() && before[k] == w;
            if k < p {
                assert(widths@[k] == w);
            } else {
                assert(widths@[k + 1] == w);
            }
        }
        if w == x {
            assert(widths@[p as int] == x);
        }
    }
}

/// Every boundary width once, in increasing order.
pub fn boundary_widths(config: &TuiTabBarConfig) -> (widths: Vec<u16>)
    ensures
        sorted_boundaries(*config, widths@),
{
    let n = config.tabs.len();
    let mut widths: Vec<u16> = Vec::new();
    let mut start: usize = 0;
    while start < n
        invariant
            n == config.tabs@.len(),
            start <= n,
            forall|i: int, j: int| 0 <= i < j < widths@.len() ==> widths@[i] < widths@[j],
            forall|w: u16|
                widths@.contains(w) <==> exists|s: int, c: int|
                    0 <= s < start && 1 <= c <= n - s && #[trigger] spec_minimum_row_width(
                        *config,
                        s,
                        c,
                    ) == w,
        decreases n - start,
    {
        let mut taken: usize = 0;
        while taken < n - start
            invariant
                n == config.tabs@.len(),
                start < n,
                taken <= n - start,
                forall|i: int, j: int| 0 <= i < j < widths@.len() ==> widths@[i] < widths@[j],
                forall|w: u16|
                    widths@.contains(w) <==> (exists|s: int, c: int|
                        0 <= s < start && 1 <= c <= n - s && #[trigger] spec_minimum_row_width(
                            *config,
                            s,
                            c,
                        ) == w) || (exists|c: int|
                        1 <= c <= taken && #[trigger] spec_minimum_row_width(
                            *config,
                            start as int,
                            c,
                        ) == w),
            decreases n - start - taken,
        {
            let count = taken + 1;
            let w = minimum_row_width(config, start, count);
            let ghost before = widths@;
            insert_sorted_unique(&mut widths, w);
            assert forall|v: u16|
                widths@.contains(v) <==> (exists|s: int, c: int|
                    0 <= s < start && 1 <= c <= n - s && #[trigger] spec_minimum_row_width(
                        *config,
                        s,
                        c,
                    ) == v) || (exists|c: int|
                    1 <= c <= taken + 1 && #[trigger] spec_minimum_row_width(
                        *config,
                        start as int,
                        c,
                    ) == v) by {
                if v == w {
                    assert(spec_minimum_row_width(*config, start as int, count as int) == v);
                }
                if exists|c: int|
                    1 <= c <= taken + 1 && #[trigger] spec_minimum_row_width(
                        *config,
                        start as int,
                        c,
                    ) == v {
                    let c = choose|c: int|
                        1 <= c <= taken + 1 && #[trigger] spec_minimum_row_width(
                            *config,
                            start as int,
                            c,
                        ) == v;
                    if c <= taken {
                        assert(before.contains(v));
                    }
                }
            }
            taken = taken + 1;
        }
        assert forall|v: u16|
            widths@.contains(v) <==> exists|s: int, c: int|
                0 <= s < start + 1 && 1 <= c <= n - s && #[trigger] spec_minimum_row_width(
                    *config,
                    s,
                    c,
                ) == v by {
            if exists|s: int, c: int|
                0 <= s < start + 1 && 1 <= c <= n - s && #[trigger] spec_minimum_row_width(
                    *config,
                    s,
                    c,
                ) == v {
                let (s, c) = choose|s: int, c: int|
                    0 <= s < start + 1 && 1 <= c <= n - s && #[trigger] spec_minimum_row_width(
                        *config,
                        s,
                        c,
                    ) == v;
                if s == start {
                    assert(1 <= c <= taken && spec_minimum_row_width(*config, start as int, c)
                        == v);
                }
            }
            if widths@.contains(v) {
                if exists|c: int|
                    1 <= c <= taken && #[trigger] spec_minimum_row_width(
                        *config,
                        start as int,
                        c,
                    ) == v {
                    let c = choose|c: int|
                        1 <= c <= taken && #[trigger] spec_minimum_row_width(
                            *config,
                            start as int,
                            c,
                        ) == v;
                    assert(0 <= start < start + 1 && 1 <= c <= n - start);
                }
            }
        }
        start = start + 1;
    }
    widths
}

/// Returns the widest page and each narrower width-specific alternative:
/// `(width, page)` means `page` applies while the available width is below
/// `width`.
pub fn page_variant_transitions(config: &TuiTabBarConfig) -> (res: (PageVariant, Vec<(u16, PageVariant)>))
    ensures
        exists|widths: Seq<u16>|
            sorted_boundaries(*config, widths) && #[trigger] transitions_over(
                *config,
                widths,
                spec_page_variant_at_width(*config, 0),
                Seq::empty(),
            ) == (res.0, res.1@),
{
    let widths = boundary_widths(config);
    let mut page = page_variant_at_width(config, 0);
    let mut transitions: Vec<(u16, PageVariant)> = Vec::new();
    let ghost initial = page;
    let mut i: usize = 0;
    assert(widths@.skip(0) == widths@);
    while i < widths.len()
        invariant
            i <= widths@.len(),
            transitions_over(*config, widths@, initial, Seq::empty()) == transitions_over(
                *config,
                widths@.skip(i as int),
                page,
                transitions@,
            ),
        decreases widths@.len() - i,
    {
        let boundary = widths[i];
        let next_page = page_variant_at_width(config, boundary);
        assert(widths@.skip(i as int).drop_first() == widths@.skip(i + 1));
        if next_page != page {
            if boundary > 0 {
                transitions.push((boundary, page));
            }
            page = next_page;
        }
        i = i + 1;
    }
    assert(widths@.skip(widths@.len() as int).len() == 0);
    (page, transitions)
}

proof fn lemma_visible_count_fits(config: TuiTabBarConfig, start: int, width: u16, limit: int)
    ensures
        largest_fitting_count(config, start, width, limit) > 0 ==> spec_minimum_row_width(
            config,
            start,
            largest_fitting_count(config, start, width, limit),
        ) <= width,
        forall|c: int|
            largest_fitting_count(config, start, width, limit) < c <= limit
                ==> #[trigger] spec_minimum_row_width(config, start, c) > width,
    decreases limit,
{
    if limit > 0 {
        lemma_visible_count_fits(config, start, width, limit - 1);
    }
}

proof fn lemma_pages_from_shape(config: TuiTabBarConfig, start: int, width: u16, previous: Option<usize>)
    requires
        0 <= start <= config.tabs@.len(),
    ensures
        ({
            let pages = pages_from(config, start, width, previous);
            &&& start < config.tabs@.len() ==> pages.len() > 0 && pages[0].start == start
                && pages[0].previous_start == previous
            &&& start == config.tabs@.len() ==> pages.len() == 0
            &&& forall|k: int|
                0 <= k < pages.len() ==> start <= (#[trigger] pages[k]).start < config.tabs@.len()
                    && pages[k].visible_count <= config.tabs@.len() - pages[k].start
            &&& forall|k: int|
                0 <= k < pages.len() ==> (#[trigger] pages[k]).next_start == (if k + 1
                    < pages.len() {
                    Some(pages[k + 1].start)
                } else {
                    None::<usize>
                })
            &&& forall|k: int|
                0 <= k < pages.len() ==> #[trigger] pages[k] == PageVariant {
                    previous_start: pages[k].previous_start,
                    ..spec_page_from_start(config, pages[k].start as int, width)
                }
            &&& forall|k: int|
                0 < k < pages.len() ==> (#[trigger] pages[k]).previous_start == Some(
                    pages[k - 1].start,
                )
        }),
    decreases config.tabs@.len() - start,
{
    let n = config.tabs@.len();
    assert(config.tabs@.len() == config.tabs.len());
    if start < n {
        let pages = pages_from(config, start, width, previous);
        let count = spec_visible_count_at_width(config, start, width);
        lemma_largest_fitting_count_bounds(config, start, width, n - start);
        let page = PageVariant {
            previous_start: previous,
            ..spec_page_from_start(config, start, width)
        };
        match page.next_start {
            Some(next) => {
                assert(next > start);
                lemma_pages_from_shape(config, next as int, width, Some(start as usize));
                let rest = pages_from(config, next as int, width, Some(start as usize));
                assert(pages == seq![page].add(rest));
                assert forall|k: int| 0 < k < pages.len() implies pages[k] == rest[k - 1] by {}
            },
            None => {
                assert(pages == seq![page]);
            },
        }
    }
}

proof fn lemma_pages_from_cover(
    config: TuiTabBarConfig,
    start: int,
    width: u16,
    previous: Option<usize>,
    index: int,
)
    requires
        0 <= start <= index < config.tabs@.len(),
    ensures
        exists|k: int|
            0 <= k < pages_from(config, start, width, previous).len() && page_contains(
                #[trigger] pages_from(config, start, width, previous)[k],
                index,
            ),
    decreases config.tabs@.len() - start,
{
    let n = config.tabs@.len();
    assert(config.tabs@.len() == config.tabs.len());
    let pages = pages_from(config, start, width, previous);
    lemma_largest_fitting_count_bounds(config, start, width, n - start);
    let page = PageVariant {
        previous_start: previous,
        ..spec_page_from_start(config, start, width)
    };
    if page_contains(page, index) {
        assert(page_contains(pages[0], index));
    } else {
        let next = page.next_start->0;
        assert(page.next_start is Some);
        lemma_pages_from_cover(config, next as int, width, Some(start as usize), index);
        let rest = pages_from(config, next as int, width, Some(start as usize));
        assert(pages == seq![page].add(rest));
        let k = choose|k: int| 0 <= k < rest.len() && page_contains(#[trigger] rest[k], index);
        assert(pages[k + 1] == rest[k]);
    }
}

/// The deterministic pages at any width partition the secondary tabs: the
/// first page starts at the first tab, each later page starts where the one
/// before it ends and names it as its previous page, each non-empty page's
/// tabs fit in the width and one more tab would not.
proof fn lemma_page_fit(config: TuiTabBarConfig, width: u16, start: int)
    requires
        0 <= start <= config.tabs@.len(),
    ensures
        ({
            let count = spec_visible_count_at_width(config, start, width);
            &&& 0 <= count <= config.tabs@.len() - start
            &&& count > 0 ==> spec_minimum_row_width(config, start, count) <= width
            &&& start + count < config.tabs@.len() ==> spec_minimum_row_width(
                config,
                start,
                count + 1,
            ) > width
        }),
{
    let n = config.tabs@.len();
    lemma_visible_count_fits(config, start, width, n - start);
    lemma_largest_fitting_count_bounds(config, start, width, n - start);
    let count = spec_visible_count_at_width(config, start, width);
    if start + count < n {
        assert(spec_minimum_row_width(config, start, count + 1) > width);
    }
}

/// Whether the page at `k` of `pages` is followed by the page that starts
/// where it ends and names it as its previous page.
pub open spec fn page_is_followed(pages: Seq<PageVariant>, k: int) -> bool {
    pages[k + 1].start == pages[k].start + (if pages[k].visible_count > 0 {
        pages[k].visible_count as int
    } else {
        1int
    }) && pages[k + 1].previous_start == Some(pages[k].start)
}

/// Whether a page's tabs fit in `width` and one more tab would not.
pub open spec fn page_is_full(config: TuiTabBarConfig, page: PageVariant, width: u16) -> bool {
    (page.visible_count > 0 ==> spec_minimum_row_width(
        config,
        page.start as int,
        page.visible_count as int,
    ) <= width) && (page.start + page.visible_count < config.tabs@.len()
        ==> spec_minimum_row_width(config, page.start as int, page.visible_count + 1) > width)
}

/// The deterministic pages at any width partition the secondary tabs: the
/// first page starts at the first tab, each later page starts where the one
/// before it ends and names it as its previous page, the last page reaches
/// the last tab, and each page's tabs fit in the width while one more tab
/// would not.
pub proof fn law_deterministic_pages_partition(config: TuiTabBarConfig, width: u16)
    ensures
        ({
            let pages = spec_deterministic_pages_at_width(config, width);
            let n = config.tabs@.len();
            &&& n == 0 <==> pages.len() == 0
            &&& n > 0 ==> pages[0].start == 0 && pages[0].previous_start is None
            &&& forall|k: int| 0 <= k < pages.len() - 1 ==> #[trigger] page_is_followed(pages, k)
            &&& pages.len() > 0 ==> pages.last().start + (if pages.last().visible_count > 0 {
                pages.last().visible_count as int
            } else {
                1int
            }) >= n
            &&& forall|k: int|
                0 <= k < pages.len() ==> #[trigger] page_is_full(config, pages[k], width)
        }),
{
    let pages = spec_deterministic_pages_at_width(config, width);
    let n = config.tabs@.len();
    assert(config.tabs@.len() == config.tabs.len());
    lemma_pages_from_shape(config, 0, width, None);
    assert forall|k: int| 0 <= k < pages.len() implies #[trigger] page_is_full(
        config,
        pages[k],
        width,
    ) by {
        lemma_page_fit(config, width, pages[k].start as int);
    }
    assert forall|k: int| 0 <= k < pages.len() - 1 implies #[trigger] page_is_followed(
        pages,
        k,
    ) by {
        lemma_page_fit(config, width, pages[k].start as int);
        assert(pages[k].next_start == Some(pages[k + 1].start));
    }
    if pages.len() > 0 {
        let last = pages.last();
        lemma_page_fit(config, width, last.start as int);
        assert(last.next_start is None);
    }
}

/// With selected reveal requested, the page chosen at any width shows the
/// selected secondary tab (an empty page stands for the tab it starts at).
pub proof fn law_reveal_shows_selected(config: TuiTabBarConfig, width: u16)
    requires
        config.reveal_selected,
        spec_selected_secondary_index(config) is Some,
    ensures
        page_contains(
            spec_page_variant_at_width(config, width),
            spec_selected_secondary_index(config)->0,
        ),
{
    let s = spec_selected_secondary_index(config)->0;
    let n = config.tabs@.len();
    assert(config.tabs@.len() == config.tabs.len());
    lemma_key_position_from(config.tabs@, config.selected_key->0@, 0);
    let requested_start = spec_requested_page_start(config);
    if config.page_anchor is Some {
        lemma_key_position_from(config.tabs@, config.page_anchor->0@, 0);
    }
    let requested = spec_page_from_start(config, requested_start, width);
    let selected_is_visible = requested_start <= s < requested_start + requested.visible_count;
    if selected_is_visible {
        lemma_largest_fitting_count_bounds(config, requested_start, width, n - requested_start);
    } else {
        let pages = spec_deterministic_pages_at_width(config, width);
        lemma_pages_from_cover(config, 0, width, None, s);
        lemma_first_page_containing(pages, s, 0);
    }
}

/// The caller's anchor is kept whenever selected reveal is not requested or
/// the selected tab already shows on the anchored page.
pub proof fn law_anchor_is_stable(config: TuiTabBarConfig, width: u16)
    requires
        !config.reveal_selected || (spec_selected_secondary_index(config) matches Some(s)
            && spec_requested_page_start(config) <= s < spec_requested_page_start(config)
            + spec_page_from_start(config, spec_requested_page_start(config), width).visible_count),
    ensures
        spec_page_variant_at_width(config, width).start == spec_requested_page_start(config),
{
    let n = config.tabs@.len();
    assert(config.tabs@.len() == config.tabs.len());
    if config.page_anchor is Some {
        lemma_key_position_from(config.tabs@, config.page_anchor->0@, 0);
    }
}

/// Moving to the next tab and then to the previous one returns to the
/// selected tab, for any configuration with distinct keys.
pub proof fn law_navigation_round_trip(config: TuiTabBarConfig, next_key: String)
    requires
        valid_config(config),
        config.selected_key matches Some(selected) && key_position(
            config.all_tabs(),
            selected@,
        ) is Some,
        spec_navigation_target(config, TuiTabBarNavigationDirection::Next) == Some(next_key@),
    ensures
        spec_navigation_target(
            TuiTabBarConfig { selected_key: Some(next_key), ..config },
            TuiTabBarNavigationDirection::Previous,
        ) == Some(config.selected_key->0@),
{
    let order = config.all_tabs();
    let len = order.len() as int;
    let selected = config.selected_key->0;
    lemma_key_position_from(order, selected@, 0);
    let p = key_position(order, selected@)->0;
    let t = (p + 1) % len;
    assert(0 <= p < len);
    assert(0 <= t < len) by (nonlinear_arith)
        requires len > 0, t == (p + 1) % len;
    assert(order[t].key@ == next_key@);
    lemma_unique_key_position(order, t, config.maximum_label_columns);
    lemma_key_position_from(order, order[p].key@, 0);
    if p + 1 < len {
        assert((p + 1) % len == p + 1) by (nonlinear_arith)
            requires 0 <= p + 1 < len;
    } else {
        assert((p + 1) % len == 0) by (nonlinear_arith)
            requires p + 1 == len, len > 0;
    }
}

proof fn lemma_unique_key_position(tabs: Seq<TuiTab>, t: int, max_label: Option<u16>)
    requires
        0 <= t < tabs.len(),
        forall|i: int| 0 <= i < tabs.len() ==> !#[trigger] tab_is_invalid(tabs, i, max_label),
    ensures
        key_position(tabs, tabs[t].key@) == Some(t),
{
    lemma_key_position_from(tabs, tabs[t].key@, 0);
    assert(key_position_from(tabs, tabs[t].key@, t) == Some(t));
    assert forall|j: int| 0 <= j <= t implies key_position(tabs, tabs[t].key@)
        == key_position_from(tabs, tabs[t].key@, j) by {
        lemma_key_position_step(tabs, tabs[t].key@, j, t, max_label);
    }
}

proof fn lemma_key_position_step(tabs: Seq<TuiTab>, key: Seq<char>, j: int, t: int, max_label: Option<u16>)
    requires
        0 <= j <= t < tabs.len(),
        tabs[t].key@ == key,
        forall|i: int| 0 <= i < tabs.len() ==> !#[trigger] tab_is_invalid(tabs, i, max_label),
    ensures
        key_position_from(tabs, key, 0) == key_position_from(tabs, key, j),
    decreases j,
{
    if j > 0 {
        lemma_key_position_step(tabs, key, j - 1, t, max_label);
        assert(!tab_is_invalid(tabs, t, max_label));
        if tabs[j - 1].key@ == key {
            assert(tabs[j - 1].key@ == tabs[t].key@);
            assert(repeats_earlier_key(tabs, t));
        }
    }
}

/// Caller-owned responsive paging intent for a tab bar.
#[derive(Clone, Debug, PartialEq, Eq)]
pub struct TuiTabBarPagingState<K> {
    explicit_anchor: Option<K>,
}

impl<K> Default for TuiTabBarPagingState<K> {
    fn default() -> (state: Self)
        ensures
            state.explicit_anchor() is None,
    {
        TuiTabBarPagingState { explicit_anchor: None }
    }
}

/// Effective paging inputs resolved from a [`TuiTabBarPagingState`].
pub struct TuiTabBarResolvedPage<K> {
    pub page_anchor: Option<K>,
    pub reveal_selected: bool,
}

impl<K> TuiTabBarPagingState<K> {
    /// The anchor the caller pinned, if any.
    pub closed spec fn explicit_anchor(self) -> Option<K> {
        self.explicit_anchor
    }

    /// Preserves the page beginning at `anchor` instead of revealing selection.
    pub fn set_explicit_anchor(&mut self, anchor: K)
        ensures
            final(self).explicit_anchor() == Some(anchor),
    {
        self.explicit_anchor = Some(anchor);
    }

    /// Resumes automatic selected-tab reveal.
    pub fn clear_explicit_anchor(&mut self)
        ensures
            final(self).explicit_anchor() is None,
    {
        self.explicit_anchor = None;
    }
}

impl<K: Clone> TuiTabBarPagingState<K> {
    /// Resolves paging intent against the owner's current ordered keys: a
    /// pinned anchor that the owner still recognises is kept and disables
    /// selected reveal; otherwise the default anchor applies with reveal on.
    pub fn resolve<F: FnOnce(&K) -> bool>(
        &self,
        default_anchor: Option<K>,
        explicit_anchor_is_valid: F,
    ) -> (page: TuiTabBarResolvedPage<K>)
        requires
            self.explicit_anchor() matches Some(anchor) ==> call_requires(
                explicit_anchor_is_valid,
                (&anchor,),
            ),
        ensures
            match self.explicit_anchor() {
                None => page.page_anchor == default_anchor && page.reveal_selected,
                Some(anchor) => exists|valid: bool|
                    call_ensures(explicit_anchor_is_valid, (&anchor,), valid) && (valid ==> (
                    page.page_anchor matches Some(kept) && cloned(anchor, kept)
                        && !page.reveal_selected)) && (!valid ==> page.page_anchor
                        == default_anchor && page.reveal_selected),
            },
    {
        match &self.explicit_anchor {
            Some(anchor) => {
                let valid = explicit_anchor_is_valid(anchor);
                if valid {
                    TuiTabBarResolvedPage { page_anchor: Some(anchor.clone()), reveal_selected: false }
                } else {
                    TuiTabBarResolvedPage { page_anchor: default_anchor, reveal_selected: true }
                }
            },
            None => TuiTabBarResolvedPage { page_anchor: default_anchor, reveal_selected: true },
        }
    }
}

/// How a tab is styled.
#[derive(Clone, Copy, Debug, PartialEq, Eq, Structural)]
pub enum TabStyleKind {
    /// An unselected tab.
    Tab,
    /// The selected tab while the bar has focus.
    SelectedFocused,
    /// The selected tab while the bar does not have focus.
    SelectedUnfocused,
}

/// One element of a rendered page, left to right.
#[derive(Clone, Copy, Debug, PartialEq, Eq, Structural)]
pub enum TabRowItem {
    /// The configuration's leading text.
    Leading,
    /// A tab: the main tab (`secondary_index` is `None`) or a secondary tab.
    /// Its label is capped at `label_columns`; `max_columns` caps the whole
    /// tab (the last visible tab stops at its natural width).
    Tab { secondary_index: Option<usize>, style: TabStyleKind, label_columns: u16, max_columns: Option<u16> },
    /// The divider between the main tab and the secondary tabs.
    Divider,
    /// The `←` arrow, paging to the page that starts at `anchor`.
    PreviousPage { anchor: usize },
    /// The `→` arrow, paging to the page that starts at `anchor`.
    NextPage { anchor: usize },
}

/// The style of `tab`: selected (focused or not) when its key is the
/// selected key, else plain.
pub open spec fn spec_tab_style(config: TuiTabBarConfig, tab: TuiTab) -> TabStyleKind {
    if config.selected_key matches Some(k) && k@ == tab.key@ {
        if config.focused {
            TabStyleKind::SelectedFocused
        } else {
            TabStyleKind::SelectedUnfocused
        }
    } else {
        TabStyleKind::Tab
    }
}

/// The end of the tabs a page shows: `start + visible_count`, at most the
/// number of tabs.
pub open spec fn page_visible_end(config: TuiTabBarConfig, page: PageVariant) -> int {
    let end = page.start + page.visible_count;
    let end = if end > usize::MAX { usize::MAX as int } else { end };
    if end < config.tabs@.len() { end } else { config.tabs@.len() as int }
}

/// The secondary tab at index `i` of a page, capped at its natural width
/// when it is the page's last visible tab.
pub open spec fn secondary_item(config: TuiTabBarConfig, page: PageVariant, i: int) -> TabRowItem {
    let tab = config.tabs@[i];
    TabRowItem::Tab {
        secondary_index: Some(i as usize),
        style: spec_tab_style(config, tab),
        label_columns: spec_configured_label_width(tab, config.maximum_label_columns),
        max_columns: if (i - page.start) + 1 == page.visible_count {
            Some(spec_natural_tab_width(tab, config.tab_padding_columns, config.maximum_label_columns))
        } else {
            None
        },
    }
}

/// The elements before a page's secondary tabs: the leading text; the main
/// tab, followed by the divider when there are secondary tabs; the `←`
/// arrow.
pub open spec fn spec_row_head(config: TuiTabBarConfig, page: PageVariant) -> Seq<TabRowItem> {
    (if config.leading is Some { seq![TabRowItem::Leading] } else { Seq::empty() })
        + (match config.main_tab {
        Some(m) => seq![
            TabRowItem::Tab {
                secondary_index: None,
                style: spec_tab_style(config, m),
                label_columns: spec_configured_label_width(m, config.maximum_label_columns),
                max_columns: None,
            },
        ] + if config.tabs@.len() > 0 { seq![TabRowItem::Divider] } else { Seq::empty() },
        None => Seq::empty(),
    }) + (match page.previous_start {
        Some(p) => seq![TabRowItem::PreviousPage { anchor: p }],
        None => Seq::empty(),
    })
}

/// The first `n` visible secondary tabs of a page.
pub open spec fn spec_row_secondaries(config: TuiTabBarConfig, page: PageVariant, n: int) -> Seq<TabRowItem> {
    Seq::new(n as nat, |j: int| secondary_item(config, page, page.start + j))
}

/// The `→` arrow after a page's secondary tabs, if it pages on.
pub open spec fn spec_row_tail(page: PageVariant) -> Seq<TabRowItem> {
    match page.next_start {
        Some(n) => seq![TabRowItem::NextPage { anchor: n }],
        None => Seq::empty(),
    }
}

/// The elements of a page, left to right: the leading text; the main tab,
/// followed by the divider when there are secondary tabs; the `←` arrow;
/// the visible secondary tabs; the `→` arrow.
pub open spec fn spec_page_row_plan(config: TuiTabBarConfig, page: PageVariant) -> Seq<TabRowItem> {
    spec_row_head(config, page) + spec_row_secondaries(
        config,
        page,
        page_visible_end(config, page) - page.start,
    ) + spec_row_tail(page)
}

fn tab_style(config: &TuiTabBarConfig, tab: &TuiTab) -> (style: TabStyleKind)
    ensures
        style == spec_tab_style(*config, *tab),
{
    let selected = match &config.selected_key {
        Some(k) => crate::text::str_eq(k.as_str(), tab.key.as_str()),
        None => false,
    };
    if selected {
        if config.focused {
            TabStyleKind::SelectedFocused
        } else {
            TabStyleKind::SelectedUnfocused
        }
    } else {
        TabStyleKind::Tab
    }
}

fn page_row_head(config: &TuiTabBarConfig, page: PageVariant) -> (row: Vec<TabRowItem>)
    ensures
        row@ == spec_row_head(*config, page),
{
    let mut row: Vec<TabRowItem> = Vec::new();
    if config.leading.is_some() {
        row.push(TabRowItem::Leading);
    }
    match &config.main_tab {
        Some(main_tab) => {
            row.push(
                TabRowItem::Tab {
                    secondary_index: None,
                    style: tab_style(config, main_tab),
                    label_columns: configured_label_width(main_tab, config),
                    max_columns: None,
                },
            );
            if config.tabs.len() > 0 {
                row.push(TabRowItem::Divider);
            }
        },
        None => {},
    }
    match page.previous_start {
        Some(p) => row.push(TabRowItem::PreviousPage { anchor: p }),
        None => {},
    }
    proof {
        assert(row@ =~= spec_row_head(*config, page));
    }
    row
}

/// Lays out one page of the bar: the elements it shows, left to right.
/// `page` comes from the bar's paging (see `page_variant_at_width`), so its
/// start and arrow anchors name tabs of `config`.
pub fn page_row_plan(config: &TuiTabBarConfig, page: PageVariant) -> (row: Vec<TabRowItem>)
    requires
        page.start <= config.tabs@.len(),
        page.previous_start matches Some(p) ==> p < config.tabs@.len(),
        page.next_start matches Some(n) ==> n < config.tabs@.len(),
    ensures
        row@ == spec_page_row_plan(*config, page),
{
    let mut row = page_row_head(config, page);
    let ghost head = row@;
    let end_sum = page.start.saturating_add(page.visible_count);
    let visible_end = if end_sum < config.tabs.len() {
        end_sum
    } else {
        config.tabs.len()
    };
    let mut i: usize = page.start;
    while i < visible_end
        invariant
            page.start <= i <= visible_end,
            visible_end == page_visible_end(*config, page),
            visible_end <= config.tabs@.len(),
            row@ == head + spec_row_secondaries(*config, page, i - page.start),
        decreases visible_end - i,
    {
        let tab = &config.tabs[i];
        let is_last_visible = i - page.start + 1 == page.visible_count;
        let max_columns = if is_last_visible {
            Some(natural_tab_width(tab, config))
        } else {
            None
        };
        let item = TabRowItem::Tab {
            secondary_index: Some(i),
            style: tab_style(config, tab),
            label_columns: configured_label_width(tab, config),
            max_columns,
        };
        assert(item == secondary_item(*config, page, i as int));
        row.push(item);
        proof {
            assert(row@ =~= head + spec_row_secondaries(*config, page, i + 1 - page.start));
        }
        i = i + 1;
    }
    let ghost body = row@;
    match page.next_start {
        Some(n) => row.push(TabRowItem::NextPage { anchor: n }),
        None => {},
    }
    proof {
        assert(row@ =~= body + spec_row_tail(page));
    }
    row
}

/// Measured text by value.
pub open spec fn measured_view(m: Option<TuiMeasuredText>) -> Option<(Seq<char>, u16)> {
    match m {
        Some(t) => Some((t.text@, t.columns)),
        None => None,
    }
}

/// A tab by value: key, label, widths and leading text.
pub open spec fn tab_view(t: TuiTab) -> (Seq<char>, Seq<char>, u16, u16, Option<(Seq<char>, u16)>) {
    (t.key@, t.label@, t.label_columns, t.first_grapheme_columns, measured_view(t.leading))
}

/// An optional tab by value.
pub open spec fn opt_tab_view(t: Option<TuiTab>) -> Option<(Seq<char>, Seq<char>, u16, u16, Option<(Seq<char>, u16)>)> {
    match t {
        Some(t) => Some(tab_view(t)),
        None => None,
    }
}

/// An optional string by value.
pub open spec fn opt_text_view(s: Option<String>) -> Option<Seq<char>> {
    match s {
        Some(s) => Some(s@),
        None => None,
    }
}

/// The secondary tabs by value.
pub open spec fn tabs_view(tabs: Seq<TuiTab>) -> Seq<(Seq<char>, Seq<char>, u16, u16, Option<(Seq<char>, u16)>)> {
    tabs.map_values(|t: TuiTab| tab_view(t))
}

/// A whole configuration by value: two configurations with equal views are
/// equal configurations.
pub open spec fn config_view(c: TuiTabBarConfig) -> (
    Option<(Seq<char>, u16)>,
    Option<(Seq<char>, Seq<char>, u16, u16, Option<(Seq<char>, u16)>)>,
    Seq<(Seq<char>, Seq<char>, u16, u16, Option<(Seq<char>, u16)>)>,
    Option<Seq<char>>,
    bool,
    Option<Seq<char>>,
    bool,
    Option<u16>,
    u16,
    u16,
) {
    (
        measured_view(c.leading),
        opt_tab_view(c.main_tab),
        tabs_view(c.tabs@),
        opt_text_view(c.selected_key),
        c.focused,
        opt_text_view(c.page_anchor),
        c.reveal_selected,
        c.maximum_label_columns,
        c.tab_padding_columns,
        c.secondary_gap_columns,
    )
}

fn measured_equal(a: &Option<TuiMeasuredText>, b: &Option<TuiMeasuredText>) -> (eq: bool)
    ensures
        eq == (measured_view(*a) == measured_view(*b)),
{
    match (a, b) {
        (Some(x), Some(y)) => x.columns == y.columns && crate::text::str_eq(x.text.as_str(), y.text.as_str()),
        (None, None) => true,
        _ => false,
    }
}

fn tabs_equal_one(a: &TuiTab, b: &TuiTab) -> (eq: bool)
    ensures
        eq == (tab_view(*a) == tab_view(*b)),
{
    a.label_columns == b.label_columns && a.first_grapheme_columns == b.first_grapheme_columns
        && crate::text::str_eq(a.key.as_str(), b.key.as_str()) && crate::text::str_eq(
        a.label.as_str(),
        b.label.as_str(),
    ) && measured_equal(&a.leading, &b.leading)
}

fn opt_text_equal(a: &Option<String>, b: &Option<String>) -> (eq: bool)
    ensures
        eq == (opt_text_view(*a) == opt_text_view(*b)),
{
    match (a, b) {
        (Some(x), Some(y)) => crate::text::str_eq(x.as_str(), y.as_str()),
        (None, None) => true,
        _ => false,
    }
}

fn tab_lists_equal(a: &Vec<TuiTab>, b: &Vec<TuiTab>) -> (eq: bool)
    ensures
        eq == (tabs_view(a@) == tabs_view(b@)),
{
    if a.len() != b.len() {
        proof {
            assert(tabs_view(a@).len() != tabs_view(b@).len());
        }
        return false;
    }
    let mut i: usize = 0;
    while i < a.len()
        invariant
            a@.len() == b@.len(),
            i <= a@.len(),
            forall|k: int| 0 <= k < i ==> tab_view(#[trigger] a@[k]) == tab_view(b@[k]),
        decreases a@.len() - i,
    {
        if !tabs_equal_one(&a[i], &b[i]) {
            proof {
                assert(tabs_view(a@)[i as int] == tab_view(a@[i as int]));
                assert(tabs_view(b@)[i as int] == tab_view(b@[i as int]));
            }
            return false;
        }
        i = i + 1;
    }
    proof {
        assert(tabs_view(a@) =~= tabs_view(b@));
    }
    true
}

fn configs_equal(a: &TuiTabBarConfig, b: &TuiTabBarConfig) -> (eq: bool)
    ensures
        eq == (config_view(*a) == config_view(*b)),
{
    let main_equal = match (&a.main_tab, &b.main_tab) {
        (Some(x), Some(y)) => tabs_equal_one(x, y),
        (None, None) => true,
        _ => false,
    };
    measured_equal(&a.leading, &b.leading) && main_equal && tab_lists_equal(&a.tabs, &b.tabs)
        && opt_text_equal(&a.selected_key, &b.selected_key) && a.focused == b.focused
        && opt_text_equal(&a.page_anchor, &b.page_anchor) && a.reveal_selected == b.reveal_selected
        && a.maximum_label_columns == b.maximum_label_columns && a.tab_padding_columns
        == b.tab_padding_columns && a.secondary_gap_columns == b.secondary_gap_columns
}

/// Retained tab-bar state: a validated configuration.
pub struct TuiTabBarView {
    config: TuiTabBarConfig,
}

impl TuiTabBarView {
    /// The configuration the view currently renders.
    pub closed spec fn spec_config(self) -> TuiTabBarConfig {
        self.config
    }

    /// The view holds a validated configuration.
    pub closed spec fn wf(self) -> bool {
        valid_config(self.config)
    }

    /// Creates an empty tab bar without fallible caller-supplied configuration.
    pub fn empty() -> (view: Self)
        ensures
            view.wf(),
            view.spec_config().tabs@.len() == 0,
            view.spec_config().main_tab is None,
            view.spec_config().selected_key is None,
            view.spec_config().page_anchor is None,
            view.spec_config().leading is None,
            !view.spec_config().focused,
            !view.spec_config().reveal_selected,
            view.spec_config().maximum_label_columns is None,
            view.spec_config().tab_padding_columns == 1,
            view.spec_config().secondary_gap_columns == 1,
    {
        let config = TuiTabBarConfig::new(Vec::new());
        assert(config.all_tabs().len() == 0);
        TuiTabBarView { config }
    }

    /// Creates a view over `config`, or reports the first invalid tab: a
    /// repeated key or a label cap too small to show any label content.
    pub fn new(config: TuiTabBarConfig) -> (res: Result<Self, TuiTabBarConfigError>)
        ensures
            match res {
                Ok(view) => valid_config(config) && view.wf() && view.spec_config() == config,
                Err(err) => !valid_config(config) && is_config_error(config, err),
            },
    {
        match validated_live_keys(&config) {
            Ok(_) => Ok(TuiTabBarView { config }),
            Err(err) => {
                proof {
                    lemma_error_means_invalid(config, err);
                }
                Err(err)
            },
        }
    }

    /// Replaces the configuration, or leaves the view unchanged and reports
    /// the first invalid tab of `config`. A configuration equal to the
    /// current one is accepted without change. The result is whether the
    /// view changed, and so must be rendered again: only for an accepted,
    /// different configuration.
    pub fn set_config(&mut self, config: TuiTabBarConfig) -> (res: Result<bool, TuiTabBarConfigError>)
        requires
            old(self).wf(),
        ensures
            match res {
                Ok(changed) => final(self).wf() && config_view(final(self).spec_config())
                    == config_view(config) && changed == (config_view(old(self).spec_config())
                    != config_view(config)) && (!changed ==> *final(self) == *old(self))
                    && (changed ==> valid_config(config) && final(self).spec_config() == config),
                Err(err) => !valid_config(config) && is_config_error(config, err) && *final(self)
                    == *old(self) && config_view(old(self).spec_config()) != config_view(config),
            },
    {
        if configs_equal(&self.config, &config) {
            return Ok(false);
        }
        match validated_live_keys(&config) {
            Ok(_) => {
                self.config = config;
                Ok(true)
            },
            Err(err) => {
                proof {
                    lemma_error_means_invalid(config, err);
                }
                Err(err)
            },
        }
    }

    /// The keys of the main and secondary tabs, in semantic order.
    pub fn live_keys(&self) -> (keys: Vec<String>)
        requires
            self.wf(),
        ensures
            keys@.len() == self.spec_config().all_tabs().len(),
            forall|i: int|
                0 <= i < keys@.len() ==> #[trigger] keys@[i]@ == self.spec_config().all_tabs()[i].key@,
    {
        match validated_live_keys(&self.config) {
            Ok(keys) => keys,
            Err(err) => {
                proof {
                    lemma_error_means_invalid(self.config, err);
                }
                Vec::new()
            },
        }
    }

    /// Whether the current configuration contains any main or secondary tabs.
    pub fn has_tabs(&self) -> (has: bool)
        ensures
            has == (self.spec_config().all_tabs().len() > 0),
    {
        self.config.main_tab.is_some() || self.config.tabs.len() > 0
    }

    /// Resolves the adjacent tab in semantic order, wrapping at either end.
    pub fn navigation_target(&self, direction: TuiTabBarNavigationDirection) -> (target: Option<
        String,
    >)
        ensures
            match spec_navigation_target(self.spec_config(), direction) {
                None => target is None,
                Some(key) => target matches Some(t) && t@ == key,
            },
    {
        resolve_navigation_target(&self.config, direction)
    }

    /// Returns the stable key at one edge of the secondary-tab collection.
    pub fn secondary_edge_target(&self, edge: TuiTabBarSecondaryEdge) -> (target: Option<String>)
        ensures
            self.spec_config().tabs@.len() == 0 ==> target is None,
            self.spec_config().tabs@.len() > 0 ==> (target matches Some(t) && t@ == match edge {
                TuiTabBarSecondaryEdge::First => self.spec_config().tabs@[0].key@,
                TuiTabBarSecondaryEdge::Last => self.spec_config().tabs@.last().key@,
            }),
    {
        resolve_secondary_edge_target(&self.config, edge)
    }

    /// Returns the configured main tab's stable key, if any.
    pub fn main_tab_key(&self) -> (key: Option<String>)
        ensures
            match self.spec_config().main_tab {
                Some(main) => key matches Some(k) && k@ == main.key@,
                None => key is None,
            },
    {
        match &self.config.main_tab {
            Some(main) => Some(main.key.clone()),
            None => None,
        }
    }

    /// The semantic event emitted for a hit-target action.
    pub fn handle_action(&self, action: &TuiTabBarAction) -> (event: TuiTabBarEvent)
        ensures
            match *action {
                TuiTabBarAction::SelectTab(key) => event matches TuiTabBarEvent::SelectTab(k)
                    && k@ == key@,
                TuiTabBarAction::PageChanged(anchor) => event matches TuiTabBarEvent::PageChanged(
                    a,
                ) && a@ == anchor@,
            },
    {
        match action {
            TuiTabBarAction::SelectTab(key) => TuiTabBarEvent::SelectTab(key.clone()),
            TuiTabBarAction::PageChanged(anchor) => TuiTabBarEvent::PageChanged(anchor.clone()),
        }
    }
}

proof fn lemma_error_means_invalid(config: TuiTabBarConfig, err: TuiTabBarConfigError)
    requires
        is_config_error(config, err),
    ensures
        !valid_config(config),
{
    let i = choose|i: int|
        0 <= i < config.all_tabs().len() && #[trigger] tab_is_invalid(
            config.all_tabs(),
            i,
            config.maximum_label_columns,
        ) && (forall|j: int|
            0 <= j < i ==> !#[trigger] tab_is_invalid(
                config.all_tabs(),
                j,
                config.maximum_label_columns,
            )) && error_for_tab(err, config.all_tabs(), i, config.maximum_label_columns);
    assert(tab_is_invalid(config.all_tabs(), i, config.maximum_label_columns));
}


impl TuiTabBarConfigError {
    /// The error's description, as shown to the user.
    pub fn message(&self) -> (text: String)
        ensures
            text@ == match *self {
                TuiTabBarConfigError::DuplicateKey(key) => "duplicate TUI tab-bar key `"@ + key@ + "`"@,
                TuiTabBarConfigError::LabelWidthTooSmall { key, configured, required } =>
                    "TUI tab-bar label width "@ + decimal(configured as nat) + " for tab `"@ + key@
                    + "` leaves no room for visible content; at least "@ + decimal(required as nat)
                    + " columns are required"@,
            },
    {
        let mut text = String::new();
        match self {
            TuiTabBarConfigError::DuplicateKey(key) => {
                push_chars(&mut text, "duplicate TUI tab-bar key `");
                push_chars(&mut text, key.as_str());
                push_chars(&mut text, "`");
            },
            TuiTabBarConfigError::LabelWidthTooSmall { key, configured, required } => {
                push_chars(&mut text, "TUI tab-bar label width ");
                push_decimal(&mut text, *configured as u64);
                push_chars(&mut text, " for tab `");
                push_chars(&mut text, key.as_str());
                push_chars(&mut text, "` leaves no room for visible content; at least ");
                push_decimal(&mut text, *required as u64);
                push_chars(&mut text, " columns are required");
            },
        }
        text
    }
}

} // verus!
