//! Validation of the scripted configuration. The configuration script is
//! evaluated outside the library; the resulting table of values arrives here
//! as a [`ConfigTable`] of plain values, and [`read`] checks it and builds
//! the [`Configuration`]: socket path, surface size, day names, fonts,
//! label coordinates, and per-bucket theme colour names.
use vstd::prelude::*;
use vstd::pervasive::unreached;

verus! {

/// Ghost model of a configuration error: its kind and the field (or, for a
/// script error, the message) it names.
pub ghost enum ConfigErrorModel {
    NilValue(Seq<char>),
    BadType(Seq<char>),
    NotSevenDays(Seq<char>),
    Script(Seq<char>),
}

/// A fatal configuration error, reported at startup before the listener or
/// the scheduler start.
#[derive(Debug, Clone)]
pub enum ConfigError {
    /// A required field is missing (nil).
    NilValueError(String),
    /// A field holds a value of the wrong type.
    TypeError(String),
    /// The day-name table does not hold exactly seven entries.
    NotSevenDaysError(String),
    /// The configuration script itself failed to evaluate; holds the
    /// evaluator's message.
    LuaError(String),
}

impl View for ConfigError {
    type V = ConfigErrorModel;

    open spec fn view(&self) -> ConfigErrorModel {
        match self {
            ConfigError::NilValueError(s) => ConfigErrorModel::NilValue(s@),
            ConfigError::TypeError(s) => ConfigErrorModel::BadType(s@),
            ConfigError::NotSevenDaysError(s) => ConfigErrorModel::NotSevenDays(s@),
            ConfigError::LuaError(s) => ConfigErrorModel::Script(s@),
        }
    }
}

/// The full report for one configuration error.
pub open spec fn spec_message(e: ConfigErrorModel) -> Seq<char> {
    match e {
        ConfigErrorModel::NilValue(s) => "nil value for: "@ + s,
        ConfigErrorModel::BadType(s) => "incorrect type for: "@ + s,
        ConfigErrorModel::NotSevenDays(s) => "require seven day entries in: "@ + s,
        ConfigErrorModel::Script(s) => "Lua error: "@ + s,
    }
}

impl ConfigError {
    /// The report printed when startup fails on this error.
    pub fn message(&self) -> (r: String)
        ensures
            r@ == spec_message(self@),
    {
        match self {
            ConfigError::NilValueError(s) => String::from_str("nil value for: ").concat(s.as_str()),
            ConfigError::TypeError(s) => String::from_str("incorrect type for: ").concat(
                s.as_str(),
            ),
            ConfigError::NotSevenDaysError(s) => String::from_str(
                "require seven day entries in: ",
            ).concat(s.as_str()),
            ConfigError::LuaError(s) => String::from_str("Lua error: ").concat(s.as_str()),
        }
    }

    /// A short label for the error's kind alone.
    pub fn description(&self) -> (r: &'static str)
        ensures
            self@ is NilValue ==> r@ == "nil value"@,
            self@ is BadType ==> r@ == "incorrect type"@,
            self@ is NotSevenDays ==> r@ == "require seven day entries"@,
            self@ is Script ==> r@ == "Lua error"@,
    {
        match self {
            ConfigError::NilValueError(_) => "nil value",
            ConfigError::TypeError(_) => "incorrect type",
            ConfigError::NotSevenDaysError(_) => "require seven day entries",
            ConfigError::LuaError(_) => "Lua error",
        }
    }
}

/// A screen coordinate for one label.
#[derive(Debug, Copy, Clone, PartialEq, Eq, Structural)]
pub struct Point {
    pub x: i32,
    pub y: i32,
}

/// Role names to font descriptors or colour names. Entries keep insertion
/// order; a later entry with the same key wins on lookup.
pub type StrMap = Vec<(String, String)>;

/// Role names to screen coordinates.
pub type PointMap = Vec<(String, Point)>;

/// Theme bucket names to their colour-name maps.
pub type ThemeMap = Vec<(String, StrMap)>;

/// Everything the clock needs at startup, already validated.
#[derive(Debug, PartialEq)]
pub struct Configuration {
    pub socket: String,
    pub width: i32,
    pub height: i32,
    pub days: [String; 7],
    pub coordinates: PointMap,
    pub fonts: StrMap,
    pub themes: ThemeMap,
}

/// The value under a key in a built map; a later entry with the same key
/// shadows an earlier one, as a rebinding in the script would.
pub open spec fn spec_lookup<V>(entries: Seq<(String, V)>, key: Seq<char>) -> Option<V>
    decreases entries.len(),
{
    if entries.len() == 0 {
        None
    } else if entries.last().0@ == key {
        Some(entries.last().1)
    } else {
        spec_lookup(entries.drop_last(), key)
    }
}

/// Look a key up in a built map.
pub fn lookup<'a, V>(m: &'a Vec<(String, V)>, key: &String) -> (r: Option<&'a V>)
    ensures
        match r {
            Some(v) => spec_lookup(m@, key@) == Some(*v),
            None => spec_lookup(m@, key@) is None,
        },
{
    let n = m.len();
    let mut i = n;
    proof {
        assert(m@.take(n as int) =~= m@);
    }
    while i > 0
        invariant
            i <= n,
            n == m@.len(),
            spec_lookup(m@, key@) == spec_lookup(m@.take(i as int), key@),
        decreases i,
    {
        i = i - 1;
        proof {
            assert(m@.take(i + 1).last() == m@[i as int]);
            assert(m@.take(i + 1).drop_last() =~= m@.take(i as int));
        }
        if m[i].0 == *key {
            return Some(&m[i].1);
        }
    }
    None
}

/// One value of the evaluated configuration script, as plain data: nil, an
/// integer, text, a nested table, or a value of some other type.
pub enum ConfigValue {
    Nil,
    Int(i64),
    Text(String),
    Table(ConfigTable),
    Other,
}

/// A table of the evaluated script: its array part in order, and its
/// string-keyed part in iteration order. Numeric-keyed entries carry no
/// configuration and stand only in `items`.
pub struct ConfigTable {
    pub items: Vec<ConfigValue>,
    pub entries: Vec<(String, ConfigValue)>,
}

/// The value under a string key; a missing key reads as nil, and a later
/// entry with the same key shadows an earlier one.
pub open spec fn spec_field(entries: Seq<(String, ConfigValue)>, key: Seq<char>) -> ConfigValue
    decreases entries.len(),
{
    if entries.len() == 0 {
        ConfigValue::Nil
    } else if entries.last().0@ == key {
        entries.last().1
    } else {
        spec_field(entries.drop_last(), key)
    }
}

/// Look a string key up in a table's string-keyed part.
pub fn field<'a>(t: &'a ConfigTable, key: &String) -> (r: Option<&'a ConfigValue>)
    ensures
        match r {
            Some(v) => spec_field(t.entries@, key@) == *v,
            None => spec_field(t.entries@, key@) == ConfigValue::Nil,
        },
{
    let n = t.entries.len();
    let mut i = n;
    proof {
        assert(t.entries@.take(n as int) =~= t.entries@);
    }
    while i > 0
        invariant
            i <= n,
            n == t.entries@.len(),
            spec_field(t.entries@, key@) == spec_field(t.entries@.take(i as int), key@),
        decreases i,
    {
        i = i - 1;
        proof {
            assert(t.entries@.take(i + 1).last() == t.entries@[i as int]);
            assert(t.entries@.take(i + 1).drop_last() =~= t.entries@.take(i as int));
        }
        if t.entries[i].0 == *key {
            return Some(&t.entries[i].1);
        }
    }
    None
}

/// A dimension field: an integer is taken (truncated to the machine width
/// the surface uses), anything else reads as zero.
pub open spec fn spec_dim(v: ConfigValue) -> i32 {
    match v {
        ConfigValue::Int(n) => n as i32,
        _ => 0,
    }
}

/// The coordinate a point table describes: its `x` and `y` fields, each
/// zero when missing or not an integer.
pub open spec fn spec_point(t: ConfigTable) -> Point {
    Point {
        x: spec_dim(spec_field(t.entries@, "x"@)),
        y: spec_dim(spec_field(t.entries@, "y"@)),
    }
}

/// Build a coordinate from a point table.
pub fn make_point(t: &ConfigTable) -> (p: Point)
    ensures
        p == spec_point(*t),
{
    let x = match field(t, &String::from_str("x")) {
        Some(ConfigValue::Int(n)) => #[verifier::truncate] (*n as i32),
        _ => 0,
    };
    let y = match field(t, &String::from_str("y")) {
        Some(ConfigValue::Int(n)) => #[verifier::truncate] (*n as i32),
        _ => 0,
    };
    Point { x, y }
}

/// The first error an entry sequence yields under an entry check, walking
/// in iteration order.
pub open spec fn spec_first_err<T>(
    e: Seq<T>,
    f: spec_fn(T) -> Option<ConfigErrorModel>,
) -> Option<ConfigErrorModel>
    decreases e.len(),
{
    if e.len() == 0 {
        None
    } else if f(e.first()) is Some {
        f(e.first())
    } else {
        spec_first_err(e.skip(1), f)
    }
}

pub proof fn lemma_first_err_none<T>(e: Seq<T>, f: spec_fn(T) -> Option<ConfigErrorModel>)
    requires
        forall|j: int| 0 <= j < e.len() ==> (#[trigger] f(e[j])) is None,
    ensures
        spec_first_err(e, f) is None,
    decreases e.len(),
{
    if e.len() > 0 {
        assert forall|j: int| 0 <= j < e.skip(1).len() implies (#[trigger] f(e.skip(1)[j]))
            is None by {
            assert(e.skip(1)[j] == e[j + 1]);
        }
        lemma_first_err_none(e.skip(1), f);
    }
}

pub proof fn lemma_first_err_at<T>(e: Seq<T>, f: spec_fn(T) -> Option<ConfigErrorModel>, k: int)
    requires
        0 <= k < e.len(),
        forall|j: int| 0 <= j < k ==> (#[trigger] f(e[j])) is None,
        f(e[k]) is Some,
    ensures
        spec_first_err(e, f) == f(e[k]),
    decreases k,
{
    if k > 0 {
        assert forall|j: int| 0 <= j < k - 1 implies (#[trigger] f(e.skip(1)[j])) is None by {
            assert(e.skip(1)[j] == e[j + 1]);
        }
        assert(e.skip(1)[k - 1] == e[k]);
        lemma_first_err_at(e.skip(1), f, k - 1);
    }
}

/// Check of one entry of a font (or colour-name) map: the value must be text.
pub open spec fn spec_text_entry_err(h: (String, ConfigValue)) -> Option<ConfigErrorModel> {
    if h.1 is Text {
        None
    } else {
        Some(ConfigErrorModel::BadType(h.0@))
    }
}

pub open spec fn text_entry_err_fn() -> spec_fn((String, ConfigValue)) -> Option<ConfigErrorModel> {
    |h: (String, ConfigValue)| spec_text_entry_err(h)
}

/// The first error in a string-to-text table, if any.
pub open spec fn spec_str_map_err(e: Seq<(String, ConfigValue)>) -> Option<ConfigErrorModel> {
    spec_first_err(e, text_entry_err_fn())
}

/// Check of one entry of the coordinates table: the value must be a table.
pub open spec fn spec_point_entry_err(h: (String, ConfigValue)) -> Option<ConfigErrorModel> {
    if h.1 is Table {
        None
    } else {
        Some(ConfigErrorModel::BadType(h.0@))
    }
}

pub open spec fn point_entry_err_fn() -> spec_fn((String, ConfigValue)) -> Option<
    ConfigErrorModel,
> {
    |h: (String, ConfigValue)| spec_point_entry_err(h)
}

pub open spec fn spec_point_map_err(e: Seq<(String, ConfigValue)>) -> Option<ConfigErrorModel> {
    spec_first_err(e, point_entry_err_fn())
}

/// Check of one entry of the themes table: the value must itself be a table
/// of text values.
pub open spec fn spec_theme_entry_err(h: (String, ConfigValue)) -> Option<ConfigErrorModel> {
    match h.1 {
        ConfigValue::Table(t) => spec_str_map_err(t.entries@),
        _ => Some(ConfigErrorModel::BadType(h.0@)),
    }
}

pub open spec fn theme_entry_err_fn() -> spec_fn((String, ConfigValue)) -> Option<
    ConfigErrorModel,
> {
    |h: (String, ConfigValue)| spec_theme_entry_err(h)
}

pub open spec fn spec_theme_map_err(e: Seq<(String, ConfigValue)>) -> Option<ConfigErrorModel> {
    spec_first_err(e, theme_entry_err_fn())
}

/// One built map entry agrees with one table entry.
pub open spec fn text_entry_matches(a: (String, String), b: (String, ConfigValue)) -> bool {
    a.0@ == b.0@ && b.1 is Text && a.1@ == b.1->Text_0@
}

/// The built map lists exactly the table's text entries, in order.
pub open spec fn str_map_matches(m: Seq<(String, String)>, e: Seq<(String, ConfigValue)>) -> bool {
    m.len() == e.len() && forall|i: int|
        0 <= i < e.len() ==> #[trigger] text_entry_matches(m[i], e[i])
}

pub open spec fn point_entry_matches(a: (String, Point), b: (String, ConfigValue)) -> bool {
    a.0@ == b.0@ && b.1 is Table && a.1 == spec_point(b.1->Table_0)
}

pub open spec fn point_map_matches(m: Seq<(String, Point)>, e: Seq<(String, ConfigValue)>) -> bool {
    m.len() == e.len() && forall|i: int|
        0 <= i < e.len() ==> #[trigger] point_entry_matches(m[i], e[i])
}

pub open spec fn theme_entry_matches(a: (String, StrMap), b: (String, ConfigValue)) -> bool {
    a.0@ == b.0@ && b.1 is Table && str_map_matches(a.1@, b.1->Table_0.entries@)
}

pub open spec fn theme_map_matches(m: Seq<(String, StrMap)>, e: Seq<(String, ConfigValue)>) -> bool {
    m.len() == e.len() && forall|i: int|
        0 <= i < e.len() ==> #[trigger] theme_entry_matches(m[i], e[i])
}

/// Build a font or colour-name map from a table; every value must be text.
pub fn make_map(t: &ConfigTable) -> (r: Result<StrMap, ConfigError>)
    ensures
        r is Ok <==> spec_str_map_err(t.entries@) is None,
        r is Ok ==> str_map_matches(r->Ok_0@, t.entries@),
        r is Err ==> spec_str_map_err(t.entries@) == Some(r->Err_0@),
{
    let n = t.entries.len();
    let mut m: StrMap = Vec::new();
    let mut i: usize = 0;
    while i < n
        invariant
            i <= n,
            n == t.entries@.len(),
            m@.len() == i,
            forall|j: int| 0 <= j < i ==> #[trigger] text_entry_matches(m@[j], t.entries@[j]),
        decreases n - i,
    {
        match &t.entries[i].1 {
            ConfigValue::Text(s) => {
                m.push((t.entries[i].0.clone(), s.clone()));
            }
            _ => {
                proof {
                    assert forall|j: int| 0 <= j < i implies (#[trigger] text_entry_err_fn()(
                        t.entries@[j],
                    )) is None by {
                        assert(text_entry_matches(m@[j], t.entries@[j]));
                    }
                    lemma_first_err_at(t.entries@, text_entry_err_fn(), i as int);
                }
                return Err(ConfigError::TypeError(t.entries[i].0.clone()));
            }
        }
        i = i + 1;
    }
    proof {
        assert forall|j: int| 0 <= j < n implies (#[trigger] text_entry_err_fn()(t.entries@[j]))
            is None by {
            assert(text_entry_matches(m@[j], t.entries@[j]));
        }
        lemma_first_err_none(t.entries@, text_entry_err_fn());
    }
    Ok(m)
}

/// Build the coordinates map from a table; every value must be a point table.
pub fn points_map(t: &ConfigTable) -> (r: Result<PointMap, ConfigError>)
    ensures
        r is Ok <==> spec_point_map_err(t.entries@) is None,
        r is Ok ==> point_map_matches(r->Ok_0@, t.entries@),
        r is Err ==> spec_point_map_err(t.entries@) == Some(r->Err_0@),
{
    let n = t.entries.len();
    let mut m: PointMap = Vec::new();
    let mut i: usize = 0;
    while i < n
        invariant
            i <= n,
            n == t.entries@.len(),
            m@.len() == i,
            forall|j: int| 0 <= j < i ==> #[trigger] point_entry_matches(m@[j], t.entries@[j]),
        decreases n - i,
    {
        match &t.entries[i].1 {
            ConfigValue::Table(inner) => {
                let p = make_point(inner);
                m.push((t.entries[i].0.clone(), p));
            }
            _ => {
                proof {
                    assert forall|j: int| 0 <= j < i implies (#[trigger] point_entry_err_fn()(
                        t.entries@[j],
                    )) is None by {
                        assert(point_entry_matches(m@[j], t.entries@[j]));
                    }
                    lemma_first_err_at(t.entries@, point_entry_err_fn(), i as int);
                }
                return Err(ConfigError::TypeError(t.entries[i].0.clone()));
            }
        }
        i = i + 1;
    }
    proof {
        assert forall|j: int| 0 <= j < n implies (#[trigger] point_entry_err_fn()(t.entries@[j]))
            is None by {
            assert(point_entry_matches(m@[j], t.entries@[j]));
        }
        lemma_first_err_none(t.entries@, point_entry_err_fn());
    }
    Ok(m)
}

/// A built theme entry that agrees with its table entry witnesses that the
/// table entry passes the themes check.
proof fn lemma_theme_entry_ok(a: (String, StrMap), b: (String, ConfigValue))
    requires
        theme_entry_matches(a, b),
    ensures
        theme_entry_err_fn()(b) is None,
{
    let inner = b.1->Table_0;
    assert forall|l: int| 0 <= l < inner.entries@.len() implies (#[trigger] text_entry_err_fn()(
        inner.entries@[l],
    )) is None by {
        assert(text_entry_matches(a.1@[l], inner.entries@[l]));
    }
    lemma_first_err_none(inner.entries@, text_entry_err_fn());
}

/// Build the themes map from a table; every value must be a table of text.
pub fn nested_map(t: &ConfigTable) -> (r: Result<ThemeMap, ConfigError>)
    ensures
        r is Ok <==> spec_theme_map_err(t.entries@) is None,
        r is Ok ==> theme_map_matches(r->Ok_0@, t.entries@),
        r is Err ==> spec_theme_map_err(t.entries@) == Some(r->Err_0@),
{
    let n = t.entries.len();
    let mut m: ThemeMap = Vec::new();
    let mut i: usize = 0;
    while i < n
        invariant
            i <= n,
            n == t.entries@.len(),
            m@.len() == i,
            forall|j: int| 0 <= j < i ==> #[trigger] theme_entry_matches(m@[j], t.entries@[j]),
        decreases n - i,
    {
        match &t.entries[i].1 {
            ConfigValue::Table(inner) => {
                match make_map(inner) {
                    Ok(im) => {
                        m.push((t.entries[i].0.clone(), im));
                    }
                    Err(e) => {
                        proof {
                            assert forall|j: int| 0 <= j < i implies (
                            #[trigger] theme_entry_err_fn()(t.entries@[j])) is None by {
                                lemma_theme_entry_ok(m@[j], t.entries@[j]);
                            }
                            lemma_first_err_at(t.entries@, theme_entry_err_fn(), i as int);
                        }
                        return Err(e);
                    }
                }
            }
            _ => {
                proof {
                    assert forall|j: int| 0 <= j < i implies (#[trigger] theme_entry_err_fn()(
                        t.entries@[j],
                    )) is None by {
                        lemma_theme_entry_ok(m@[j], t.entries@[j]);
                    }
                    lemma_first_err_at(t.entries@, theme_entry_err_fn(), i as int);
                }
                return Err(ConfigError::TypeError(t.entries[i].0.clone()));
            }
        }
        i = i + 1;
    }
    proof {
        assert forall|j: int| 0 <= j < n implies (#[trigger] theme_entry_err_fn()(t.entries@[j]))
            is None by {
            lemma_theme_entry_ok(m@[j], t.entries@[j]);
        }
        lemma_first_err_none(t.entries@, theme_entry_err_fn());
    }
    Ok(m)
}

/// Check of the socket field: required text.
pub open spec fn spec_socket_err(v: ConfigValue) -> Option<ConfigErrorModel> {
    match v {
        ConfigValue::Text(_) => None,
        ConfigValue::Nil => Some(ConfigErrorModel::NilValue("socket"@)),
        _ => Some(ConfigErrorModel::BadType("socket"@)),
    }
}

/// Check of the day-name field: a required table of exactly seven texts.
pub open spec fn spec_days_err(v: ConfigValue) -> Option<ConfigErrorModel> {
    match v {
        ConfigValue::Table(t) => if t.items@.len() != 7 {
            Some(ConfigErrorModel::NotSevenDays("days"@))
        } else if exists|i: int| 0 <= i < 7 && !((#[trigger] t.items@[i]) is Text) {
            Some(ConfigErrorModel::BadType("days"@))
        } else {
            None
        },
        ConfigValue::Nil => Some(ConfigErrorModel::NilValue("days"@)),
        _ => Some(ConfigErrorModel::BadType("days"@)),
    }
}

/// Check of a required-table field (fonts, themes, coordinates).
pub open spec fn spec_required_table_err(v: ConfigValue, name: Seq<char>) -> Option<
    ConfigErrorModel,
> {
    match v {
        ConfigValue::Table(_) => None,
        ConfigValue::Nil => Some(ConfigErrorModel::NilValue(name)),
        _ => Some(ConfigErrorModel::BadType(name)),
    }
}

/// The first error the whole configuration yields, checked in the order the
/// fields are read: the required fields' presence and shape first, then the
/// contents of the fonts, coordinates and themes tables.
pub open spec fn spec_read_err(cfg: ConfigTable) -> Option<ConfigErrorModel> {
    let g = cfg.entries@;
    if spec_socket_err(spec_field(g, "socket"@)) is Some {
        spec_socket_err(spec_field(g, "socket"@))
    } else if spec_days_err(spec_field(g, "days"@)) is Some {
        spec_days_err(spec_field(g, "days"@))
    } else if spec_required_table_err(spec_field(g, "fonts"@), "fonts"@) is Some {
        spec_required_table_err(spec_field(g, "fonts"@), "fonts"@)
    } else if spec_required_table_err(spec_field(g, "themes"@), "themes"@) is Some {
        spec_required_table_err(spec_field(g, "themes"@), "themes"@)
    } else if spec_required_table_err(spec_field(g, "coordinates"@), "coordinates"@) is Some {
        spec_required_table_err(spec_field(g, "coordinates"@), "coordinates"@)
    } else if spec_str_map_err(spec_field(g, "fonts"@)->Table_0.entries@) is Some {
        spec_str_map_err(spec_field(g, "fonts"@)->Table_0.entries@)
    } else if spec_point_map_err(spec_field(g, "coordinates"@)->Table_0.entries@) is Some {
        spec_point_map_err(spec_field(g, "coordinates"@)->Table_0.entries@)
    } else if spec_theme_map_err(spec_field(g, "themes"@)->Table_0.entries@) is Some {
        spec_theme_map_err(spec_field(g, "themes"@)->Table_0.entries@)
    } else {
        None
    }
}

/// The built configuration agrees field by field with the evaluated table.
pub open spec fn spec_config_matches(c: Configuration, cfg: ConfigTable) -> bool {
    let g = cfg.entries@;
    &&& c.socket@ == spec_field(g, "socket"@)->Text_0@
    &&& c.width == spec_dim(spec_field(g, "width"@))
    &&& c.height == spec_dim(spec_field(g, "height"@))
    &&& c.days@.len() == 7
    &&& forall|i: int|
        0 <= i < 7 ==> (#[trigger] c.days@[i])@ == spec_field(g, "days"@)->Table_0.items@[i]->Text_0@
    &&& str_map_matches(c.fonts@, spec_field(g, "fonts"@)->Table_0.entries@)
    &&& point_map_matches(c.coordinates@, spec_field(g, "coordinates"@)->Table_0.entries@)
    &&& theme_map_matches(c.themes@, spec_field(g, "themes"@)->Table_0.entries@)
}

/// The text of the day-name table at one position.
fn day_text(items: &Vec<ConfigValue>, i: usize) -> (r: String)
    requires
        i < items@.len(),
        items@[i as int] is Text,
    ensures
        r@ == items@[i as int]->Text_0@,
{
    match &items[i] {
        ConfigValue::Text(s) => s.clone(),
        _ => unreached(),
    }
}

/// Validate the evaluated configuration table and build the configuration:
/// the socket path must be text; the surface size reads as zero when absent
/// or not an integer; the day names must be exactly seven texts; fonts,
/// themes and coordinates must be tables of the shapes the clock reads.
pub fn read(cfg: &ConfigTable) -> (r: Result<Configuration, ConfigError>)
    ensures
        r is Ok <==> spec_read_err(*cfg) is None,
        r is Err ==> spec_read_err(*cfg) == Some(r->Err_0@),
        r is Ok ==> spec_config_matches(r->Ok_0, *cfg),
{
    let socket = match field(cfg, &String::from_str("socket")) {
        Some(ConfigValue::Text(s)) => s.clone(),
        Some(ConfigValue::Nil) | None => {
            return Err(ConfigError::NilValueError(String::from_str("socket")));
        }
        Some(_) => {
            return Err(ConfigError::TypeError(String::from_str("socket")));
        }
    };

    let width = match field(cfg, &String::from_str("width")) {
        Some(ConfigValue::Int(n)) => #[verifier::truncate] (*n as i32),
        _ => 0,
    };

    let height = match field(cfg, &String::from_str("height")) {
        Some(ConfigValue::Int(n)) => #[verifier::truncate] (*n as i32),
        _ => 0,
    };

    let days = match field(cfg, &String::from_str("days")) {
        Some(ConfigValue::Table(t)) => {
            if t.items.len() != 7 {
                return Err(ConfigError::NotSevenDaysError(String::from_str("days")));
            }
            let mut i: usize = 0;
            while i < 7
                invariant
                    i <= 7,
                    t.items@.len() == 7,
                    spec_field(cfg.entries@, "days"@) == ConfigValue::Table(*t),
                    spec_socket_err(spec_field(cfg.entries@, "socket"@)) is None,
                    forall|j: int| 0 <= j < i ==> (#[trigger] t.items@[j]) is Text,
                decreases 7 - i,
            {
                match &t.items[i] {
                    ConfigValue::Text(_) => {}
                    _ => {
                        proof {
                            let dv = spec_field(cfg.entries@, "days"@);
                            assert(!((dv->Table_0.items@[i as int]) is Text));
                        }
                        return Err(ConfigError::TypeError(String::from_str("days")));
                    }
                }
                i = i + 1;
            }
            [
                day_text(&t.items, 0),
                day_text(&t.items, 1),
                day_text(&t.items, 2),
                day_text(&t.items, 3),
                day_text(&t.items, 4),
                day_text(&t.items, 5),
                day_text(&t.items, 6),
            ]
        }
        Some(ConfigValue::Nil) | None => {
            return Err(ConfigError::NilValueError(String::from_str("days")));
        }
        Some(_) => {
            return Err(ConfigError::TypeError(String::from_str("days")));
        }
    };

    let fonts_table = match field(cfg, &String::from_str("fonts")) {
        Some(ConfigValue::Table(t)) => t,
        Some(ConfigValue::Nil) | None => {
            return Err(ConfigError::NilValueError(String::from_str("fonts")));
        }
        Some(_) => {
            return Err(ConfigError::TypeError(String::from_str("fonts")));
        }
    };

    let themes_table = match field(cfg, &String::from_str("themes")) {
        Some(ConfigValue::Table(t)) => t,
        Some(ConfigValue::Nil) | None => {
            return Err(ConfigError::NilValueError(String::from_str("themes")));
        }
        Some(_) => {
            return Err(ConfigError::TypeError(String::from_str("themes")));
        }
    };

    let coordinates_table = match field(cfg, &String::from_str("coordinates")) {
        Some(ConfigValue::Table(t)) => t,
        Some(ConfigValue::Nil) | None => {
            return Err(ConfigError::NilValueError(String::from_str("coordinates")));
        }
        Some(_) => {
            return Err(ConfigError::TypeError(String::from_str("coordinates")));
        }
    };

    let fonts = match make_map(fonts_table) {
        Ok(m) => m,
        Err(e) => {
            return Err(e);
        }
    };

    let coordinates = match points_map(coordinates_table) {
        Ok(m) => m,
        Err(e) => {
            return Err(e);
        }
    };

    let themes = match nested_map(themes_table) {
        Ok(m) => m,
        Err(e) => {
            return Err(e);
        }
    };

    Ok(Configuration { socket, width, height, days, coordinates, fonts, themes })
}

} // verus!
