//! The table from condition codes to icon references, and the choice between
//! the day and the night icon of a condition.

use crate::error::ForecastError;
use crate::text::{decimal, decimal_string, digit};
use vstd::hash_map::StringHashMap;
use vstd::prelude::*;
use vstd::string::*;

verus! {

/// The icon table: icon references keyed by the condition code written in
/// decimal, and, for the night icon of a condition, by the code followed by
/// `night`.
pub struct IconTable {
    entries: StringHashMap<String>,
}

impl View for IconTable {
    type V = Map<Seq<char>, Seq<char>>;

    closed spec fn view(&self) -> Map<Seq<char>, Seq<char>> {
        self.entries@.map_values(|href: String| href@)
    }
}

impl IconTable {
    /// A table without entries.
    pub fn new() -> (table: IconTable)
        ensures
            table@ == Map::<Seq<char>, Seq<char>>::empty(),
    {
        let table = IconTable { entries: StringHashMap::new() };
        assert(table@ =~= Map::<Seq<char>, Seq<char>>::empty());
        table
    }

    /// Sets the icon reference of `key`, replacing an earlier one.
    pub fn insert(&mut self, key: String, href: String)
        ensures
            final(self)@ == old(self)@.insert(key@, href@),
    {
        let ghost key_view = key@;
        let ghost href_view = href@;
        self.entries.insert(key, href);
        assert(self@ =~= old(self)@.insert(key_view, href_view));
    }

    /// The icon reference of `key`, if the table has one.
    pub fn get(&self, key: &str) -> (href: Option<&String>)
        ensures
            match href {
                Some(h) => self@.contains_key(key@) && h@ == self@[key@],
                None => !self@.contains_key(key@),
            },
    {
        self.entries.get(key)
    }
}

/// The marker that follows a condition code in the key of its night icon.
pub open spec fn night_marker() -> Seq<char> {
    seq!['n', 'i', 'g', 'h', 't']
}

/// Whether the condition written as `code` has a night icon of its own: the
/// clear and partly cloudy conditions, codes 0 to 3.
pub open spec fn has_night_variant(code: Seq<char>) -> bool {
    code == seq!['0'] || code == seq!['1'] || code == seq!['2'] || code == seq!['3']
}

/// The key under which the icon of a condition is looked up: at night, for a
/// condition with a night icon, the code followed by the night marker;
/// otherwise the code itself.
pub open spec fn icon_key(code: Seq<char>, is_day: u8) -> Seq<char> {
    if is_day == 0 && has_night_variant(code) {
        code + night_marker()
    } else {
        code
    }
}

/// The icon reference that `table` holds under `key`, if any.
pub open spec fn lookup(table: Map<Seq<char>, Seq<char>>, key: Seq<char>) -> Option<Seq<char>> {
    if table.contains_key(key) {
        Some(table[key])
    } else {
        None
    }
}

/// The icon reference of the condition written as `code`, by day or by night.
pub open spec fn icon_ref(
    table: Map<Seq<char>, Seq<char>>,
    code: Seq<char>,
    is_day: u8,
) -> Option<Seq<char>> {
    lookup(table, icon_key(code, is_day))
}

/// The icon reference of the condition numbered `code` in an hourly entry.
pub open spec fn hourly_icon(
    table: Map<Seq<char>, Seq<char>>,
    code: u16,
    is_day: u8,
) -> Option<Seq<char>> {
    icon_ref(table, decimal(code as nat), is_day)
}

/// The icon reference of the condition numbered `code` in a daily entry, which
/// is always the day icon.
pub open spec fn daily_icon(table: Map<Seq<char>, Seq<char>>, code: u16) -> Option<Seq<char>> {
    lookup(table, decimal(code as nat))
}

/// What a looked-up icon reference stands for in contracts.
pub open spec fn icon_view(icon: Result<String, ForecastError>) -> Option<Seq<char>> {
    match icon {
        Ok(href) => Some(href@),
        Err(_) => None,
    }
}

/// Whether the condition written as `code` has a night icon of its own.
fn night_variant_exists(code: &str) -> (yes: bool)
    ensures
        yes == has_night_variant(code@),
{
    if code.unicode_len() != 1 {
        return false;
    }
    let c = code.get_char(0);
    let yes = c == '0' || c == '1' || c == '2' || c == '3';
    assert(code@ =~= seq![c]);
    assert(seq!['0'][0] == '0' && seq!['1'][0] == '1' && seq!['2'][0] == '2' && seq!['3'][0]
        == '3');
    yes
}

/// Looks up the icon of the condition written as `weather_code`: for a night
/// hour (`is_day` zero) of a condition with a night icon under the code
/// followed by `night`, otherwise under the code itself. A missing entry is
/// an unknown condition code.
pub fn get_weather_icon(
    weather_map: &IconTable,
    weather_code: &str,
    is_day: &u8,
) -> (icon: Result<String, ForecastError>)
    ensures
        icon_view(icon) == icon_ref(weather_map@, weather_code@, *is_day),
        icon is Err ==> icon == Err::<String, ForecastError>(ForecastError::UnknownConditionCode),
{
    let found = if *is_day == 0 && night_variant_exists(weather_code) {
        let mut key = String::from_str(weather_code);
        proof {
            reveal_strlit("night");
            assert("night"@ =~= night_marker());
        }
        key.append("night");
        weather_map.get(key.as_str())
    } else {
        weather_map.get(weather_code)
    };
    match found {
        Some(href) => Ok(href.clone()),
        None => Err(ForecastError::UnknownConditionCode),
    }
}

/// Looks up the icon of the condition numbered `code` in an hourly entry.
pub fn hourly_weather_icon(
    weather_map: &IconTable,
    code: u16,
    is_day: u8,
) -> (icon: Result<String, ForecastError>)
    ensures
        icon_view(icon) == hourly_icon(weather_map@, code, is_day),
        icon is Err ==> icon == Err::<String, ForecastError>(ForecastError::UnknownConditionCode),
{
    let text = decimal_string(code as u32);
    get_weather_icon(weather_map, text.as_str(), &is_day)
}

/// Looks up the day icon of the condition numbered `code`.
pub fn daily_weather_icon(
    weather_map: &IconTable,
    code: u16,
) -> (icon: Result<String, ForecastError>)
    ensures
        icon_view(icon) == daily_icon(weather_map@, code),
        icon is Err ==> icon == Err::<String, ForecastError>(ForecastError::UnknownConditionCode),
{
    let text = decimal_string(code as u32);
    match weather_map.get(text.as_str()) {
        Some(href) => Ok(href.clone()),
        None => Err(ForecastError::UnknownConditionCode),
    }
}

/// Among the condition numbers, exactly 0, 1, 2 and 3 have a night icon.
pub proof fn lemma_night_variant_codes(code: u16)
    ensures
        has_night_variant(decimal(code as nat)) <==> code <= 3,
{
    let n = code as nat;
    if n < 10 {
        assert(decimal(n) =~= seq![digit(n as int)]);
        assert(decimal(n)[0] == digit(n as int));
        assert(seq!['0'][0] == '0' && seq!['1'][0] == '1' && seq!['2'][0] == '2' && seq!['3'][0]
            == '3');
    } else {
        lemma_decimal_len(n / 10);
        assert(decimal(n).len() >= 2);
        assert(seq!['0'].len() == 1 && seq!['1'].len() == 1 && seq!['2'].len() == 1
            && seq!['3'].len() == 1);
    }
}

/// A number written in decimal has at least one digit.
proof fn lemma_decimal_len(n: nat)
    ensures
        decimal(n).len() >= 1,
    decreases n,
{
    if n >= 10 {
        lemma_decimal_len(n / 10);
    }
}

/// Only whether `is_day` is zero matters to the choice of an icon.
pub proof fn lemma_icon_depends_on_night_only(
    table: Map<Seq<char>, Seq<char>>,
    code: Seq<char>,
    a: u8,
    b: u8,
)
    requires
        (a == 0) == (b == 0),
    ensures
        icon_ref(table, code, a) == icon_ref(table, code, b),
{
}

/// By day, and for a condition without a night icon, the icon is the one
/// stored under the code itself.
pub proof fn lemma_night_icon_only_for_variants(
    table: Map<Seq<char>, Seq<char>>,
    code: Seq<char>,
    is_day: u8,
)
    ensures
        is_day != 0 || !has_night_variant(code) ==> icon_ref(table, code, is_day) == lookup(
            table,
            code,
        ),
        is_day == 0 && has_night_variant(code) ==> icon_ref(table, code, is_day) == lookup(
            table,
            code + night_marker(),
        ),
{
}

} // verus!
