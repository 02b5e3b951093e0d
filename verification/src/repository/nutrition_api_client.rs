use crate::repository::error::RepoError;
use vstd::prelude::*;
use vstd::string::StringExecFns;

verus! {

/// How many stored units make up one unit of a nutrient: every amount is a
/// fixed-point integer that counts thousandths.
pub const AMOUNT_SCALE: i64 = 1000;

/// The nutrients that a lookup reports.
#[derive(Clone, Copy, Debug, PartialEq, Eq, Structural)]
pub enum Nutrient {
    Calories,
    ServingSize,
    FatTotal,
    FatSaturated,
    Protein,
    Sodium,
    Potassium,
    Cholesterol,
    CarbohydratesTotal,
    Fiber,
    Sugar,
}

/// The nutrition facts of one food, each amount in thousandths of its unit.
#[derive(Debug)]
pub struct NutritionInformation {
    pub name: String,
    pub calories: i64,
    pub serving_size_g: i64,
    pub fat_total_g: i64,
    pub fat_saturated_g: i64,
    pub protein_g: i64,
    pub sodium_mg: i64,
    pub potassium_mg: i64,
    pub cholesterol_mg: i64,
    pub carbohydrates_total_g: i64,
    pub fiber_g: i64,
    pub sugar_g: i64,
}

/// The amount nearest to `x` that an `i64` can hold.
pub open spec fn clamp_amount(x: int) -> i64 {
    if x < i64::MIN {
        i64::MIN
    } else if x > i64::MAX {
        i64::MAX
    } else {
        x as i64
    }
}

/// The exact sum of one nutrient over all entries.
pub open spec fn sum_of(entries: Seq<NutritionInformation>, which: Nutrient) -> int
    decreases entries.len(),
{
    if entries.len() == 0 {
        0
    } else {
        sum_of(entries.drop_last(), which) + entries.last().amount(which)
    }
}

/// What the aggregate of `entries` holds: the requested name, and for each
/// nutrient the sum over all entries, clamped to the range of an amount.
pub open spec fn is_aggregate(
    total: NutritionInformation,
    dish_name: Seq<char>,
    entries: Seq<NutritionInformation>,
) -> bool {
    &&& total.name@ == dish_name
    &&& forall|which: Nutrient| #[trigger]
        total.amount(which) == clamp_amount(sum_of(entries, which))
}

impl NutritionInformation {
    /// The amount of one nutrient.
    pub open spec fn amount(&self, which: Nutrient) -> i64 {
        match which {
            Nutrient::Calories => self.calories,
            Nutrient::ServingSize => self.serving_size_g,
            Nutrient::FatTotal => self.fat_total_g,
            Nutrient::FatSaturated => self.fat_saturated_g,
            Nutrient::Protein => self.protein_g,
            Nutrient::Sodium => self.sodium_mg,
            Nutrient::Potassium => self.potassium_mg,
            Nutrient::Cholesterol => self.cholesterol_mg,
            Nutrient::CarbohydratesTotal => self.carbohydrates_total_g,
            Nutrient::Fiber => self.fiber_g,
            Nutrient::Sugar => self.sugar_g,
        }
    }

    /// The amount of one nutrient.
    pub fn get(&self, which: Nutrient) -> (value: i64)
        ensures
            value == self.amount(which),
    {
        match which {
            Nutrient::Calories => self.calories,
            Nutrient::ServingSize => self.serving_size_g,
            Nutrient::FatTotal => self.fat_total_g,
            Nutrient::FatSaturated => self.fat_saturated_g,
            Nutrient::Protein => self.protein_g,
            Nutrient::Sodium => self.sodium_mg,
            Nutrient::Potassium => self.potassium_mg,
            Nutrient::Cholesterol => self.cholesterol_mg,
            Nutrient::CarbohydratesTotal => self.carbohydrates_total_g,
            Nutrient::Fiber => self.fiber_g,
            Nutrient::Sugar => self.sugar_g,
        }
    }

    /// Energy, in thousandths of a kilocalorie.
    pub fn get_calories(&self) -> (value: i64)
        ensures
            value == self.calories,
    {
        self.calories
    }

    /// Serving size, in thousandths of a gram.
    pub fn get_size(&self) -> (value: i64)
        ensures
            value == self.serving_size_g,
    {
        self.serving_size_g
    }

    /// Sodium, in thousandths of a milligram.
    pub fn get_sodium(&self) -> (value: i64)
        ensures
            value == self.sodium_mg,
    {
        self.sodium_mg
    }

    /// Sugar, in thousandths of a gram.
    pub fn get_sugar(&self) -> (value: i64)
        ensures
            value == self.sugar_g,
    {
        self.sugar_g
    }
}

impl Default for NutritionInformation {
    /// The facts of nothing: an empty name and every amount zero.
    fn default() -> (info: Self)
        ensures
            info.name@ == Seq::<char>::empty(),
            forall|which: Nutrient| #[trigger] info.amount(which) == 0,
    {
        NutritionInformation {
            name: String::new(),
            calories: 0,
            serving_size_g: 0,
            fat_total_g: 0,
            fat_saturated_g: 0,
            protein_g: 0,
            sodium_mg: 0,
            potassium_mg: 0,
            cholesterol_mg: 0,
            carbohydrates_total_g: 0,
            fiber_g: 0,
            sugar_g: 0,
        }
    }
}

/// The sum of three amounts, clamped to the range of an amount.
pub fn sum3(a: i64, b: i64, c: i64) -> (total: i64)
    ensures
        total == clamp_amount(a + b + c),
{
    let wide: i128 = a as i128 + b as i128 + c as i128;
    narrow(wide)
}

/// The amount nearest to `wide`.
fn narrow(wide: i128) -> (value: i64)
    ensures
        value == clamp_amount(wide as int),
{
    if wide < i64::MIN as i128 {
        i64::MIN
    } else if wide > i64::MAX as i128 {
        i64::MAX
    } else {
        wide as i64
    }
}

/// The sum of one nutrient over all entries, clamped to the range of an
/// amount. The running sum is kept in 128 bits, which no list that fits in
/// memory can overflow, so the clamp is applied once, to the exact sum.
pub fn total_of(entries: &Vec<NutritionInformation>, which: Nutrient) -> (total: i64)
    ensures
        total == clamp_amount(sum_of(entries@, which)),
{
    let mut acc: i128 = 0;
    let mut i: usize = 0;
    while i < entries.len()
        invariant
            i <= entries.len(),
            acc == sum_of(entries@.take(i as int), which),
            -(i as int) * 0x8000_0000_0000_0000 <= acc <= (i as int) * 0x8000_0000_0000_0000,
        decreases entries.len() - i,
    {
        let value: i64 = entries[i].get(which);
        proof {
            let next = entries@.take(i as int + 1);
            assert(next.drop_last() == entries@.take(i as int));
            assert(next.last() == entries@[i as int]);
        }
        acc = acc + value as i128;
        i = i + 1;
    }
    proof {
        assert(entries@.take(i as int) == entries@);
    }
    narrow(acc)
}

/// The address at which the nutrition service at `endpoint` is asked about
/// `dish_name`: the name follows `?query=` as it is.
pub fn request_url(endpoint: &str, dish_name: &str) -> (url: String)
    ensures
        url@ == endpoint@ + "?query="@ + dish_name@,
{
    let mut url = String::from_str(endpoint);
    url.append("?query=");
    url.append(dish_name);
    url
}

/// Folds the answer of a nutrition lookup into one record for `dish_name`.
///
/// `response` is what the lookup delivered: the decoded entries, or `None`
/// where the request failed, was refused, or its body could not be decoded.
/// A missing answer is `UpstreamUnavailable`. Otherwise the record carries
/// the requested name, whatever names the entries have, and for every
/// nutrient the sum over all entries; no entry at all sums to zero.
pub fn get_nutrition_data(dish_name: String, response: Option<Vec<NutritionInformation>>) -> (data:
    Result<NutritionInformation, RepoError>)
    ensures
        match response {
            None => data == Err::<NutritionInformation, RepoError>(RepoError::UpstreamUnavailable),
            Some(entries) => data is Ok && is_aggregate(data->Ok_0, dish_name@, entries@),
        },
{
    match response {
        None => Err(RepoError::UpstreamUnavailable),
        Some(entries) => {
            let data = NutritionInformation {
                name: dish_name,
                calories: total_of(&entries, Nutrient::Calories),
                serving_size_g: total_of(&entries, Nutrient::ServingSize),
                fat_total_g: total_of(&entries, Nutrient::FatTotal),
                fat_saturated_g: total_of(&entries, Nutrient::FatSaturated),
                protein_g: total_of(&entries, Nutrient::Protein),
                sodium_mg: total_of(&entries, Nutrient::Sodium),
                potassium_mg: total_of(&entries, Nutrient::Potassium),
                cholesterol_mg: total_of(&entries, Nutrient::Cholesterol),
                carbohydrates_total_g: total_of(&entries, Nutrient::CarbohydratesTotal),
                fiber_g: total_of(&entries, Nutrient::Fiber),
                sugar_g: total_of(&entries, Nutrient::Sugar),
            };
            Ok(data)
        },
    }
}

} // verus!
