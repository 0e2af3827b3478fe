//! Content classification tags: a closed set of fixed categories, each with a
//! canonical display string, plus one open fallback that carries an arbitrary
//! caller-supplied text used verbatim as its display string.

use vstd::prelude::*;
use crate::text::str_eq;

verus! {

/// A classification tag attached to a job. A caller-supplied string that
/// matches no fixed tag's canonical name resolves to `Other`, which displays
/// its payload verbatim. (`Other` is the single open fallback; there is no
/// second catch-all channel.)
pub enum Category {
    Podcast,
    Lifestyle,
    Vlog,
    Travel,
    FoodCooking,
    BeautyFashion,
    Fitness,
    Sports,
    Basketball,
    Soccer,
    AmericanFootball,
    MarketingWebinar,
    TalkingHeadSpeech,
    MotivationalSpeech,
    Commentary,
    Interview,
    Entertainment,
    Movies,
    DramaShows,
    RealityTalkShows,
    News,
    InformativeEducational,
    ProductReviews,
    History,
    ScienceTech,
    Music,
    Gaming,
    Other(String),
}

impl Category {
    /// The canonical display text of a category; for `Other` it is the
    /// carried text itself.
    pub open spec fn display_spec(&self) -> Seq<char> {
        match self {
            Category::Podcast => "Podcast"@,
            Category::Lifestyle => "Lifestyle"@,
            Category::Vlog => "Vlog"@,
            Category::Travel => "Travel"@,
            Category::FoodCooking => "Food & Cooking"@,
            Category::BeautyFashion => "Beauty & Fashion"@,
            Category::Fitness => "Fitness"@,
            Category::Sports => "Sports"@,
            Category::Basketball => "Basketball"@,
            Category::Soccer => "Soccer"@,
            Category::AmericanFootball => "American Football"@,
            Category::MarketingWebinar => "Marketing & Webinar"@,
            Category::TalkingHeadSpeech => "Talking Head & Speech"@,
            Category::MotivationalSpeech => "Motivational Speech"@,
            Category::Commentary => "Commentary"@,
            Category::Interview => "Interview"@,
            Category::Entertainment => "Entertainment"@,
            Category::Movies => "Movies"@,
            Category::DramaShows => "Drama Shows"@,
            Category::RealityTalkShows => "Reality & Talk Shows"@,
            Category::News => "News"@,
            Category::InformativeEducational => "Informative & Educational"@,
            Category::ProductReviews => "Product Reviews"@,
            Category::History => "History"@,
            Category::ScienceTech => "Science & Tech"@,
            Category::Music => "Music"@,
            Category::Gaming => "Gaming"@,
            Category::Other(s) => s@,
        }
    }

    /// Produces the display text of this category.
    pub fn display(&self) -> (r: String)
        ensures
            r@ == self.display_spec(),
    {
        match self {
            Category::Podcast => String::from_str("Podcast"),
            Category::Lifestyle => String::from_str("Lifestyle"),
            Category::Vlog => String::from_str("Vlog"),
            Category::Travel => String::from_str("Travel"),
            Category::FoodCooking => String::from_str("Food & Cooking"),
            Category::BeautyFashion => String::from_str("Beauty & Fashion"),
            Category::Fitness => String::from_str("Fitness"),
            Category::Sports => String::from_str("Sports"),
            Category::Basketball => String::from_str("Basketball"),
            Category::Soccer => String::from_str("Soccer"),
            Category::AmericanFootball => String::from_str("American Football"),
            Category::MarketingWebinar => String::from_str("Marketing & Webinar"),
            Category::TalkingHeadSpeech => String::from_str("Talking Head & Speech"),
            Category::MotivationalSpeech => String::from_str("Motivational Speech"),
            Category::Commentary => String::from_str("Commentary"),
            Category::Interview => String::from_str("Interview"),
            Category::Entertainment => String::from_str("Entertainment"),
            Category::Movies => String::from_str("Movies"),
            Category::DramaShows => String::from_str("Drama Shows"),
            Category::RealityTalkShows => String::from_str("Reality & Talk Shows"),
            Category::News => String::from_str("News"),
            Category::InformativeEducational => String::from_str("Informative & Educational"),
            Category::ProductReviews => String::from_str("Product Reviews"),
            Category::History => String::from_str("History"),
            Category::ScienceTech => String::from_str("Science & Tech"),
            Category::Music => String::from_str("Music"),
            Category::Gaming => String::from_str("Gaming"),
            Category::Other(s) => s.clone(),
        }
    }
}

/// The fixed category whose canonical name is `s`, if any. The wire name of a
/// fixed category is its display text.
pub open spec fn fixed_of(s: Seq<char>) -> Option<Category> {
    if s == "Podcast"@ {
        Some(Category::Podcast)
    } else if s == "Lifestyle"@ {
        Some(Category::Lifestyle)
    } else if s == "Vlog"@ {
        Some(Category::Vlog)
    } else if s == "Travel"@ {
        Some(Category::Travel)
    } else if s == "Food & Cooking"@ {
        Some(Category::FoodCooking)
    } else if s == "Beauty & Fashion"@ {
        Some(Category::BeautyFashion)
    } else if s == "Fitness"@ {
        Some(Category::Fitness)
    } else if s == "Sports"@ {
        Some(Category::Sports)
    } else if s == "Basketball"@ {
        Some(Category::Basketball)
    } else if s == "Soccer"@ {
        Some(Category::Soccer)
    } else if s == "American Football"@ {
        Some(Category::AmericanFootball)
    } else if s == "Marketing & Webinar"@ {
        Some(Category::MarketingWebinar)
    } else if s == "Talking Head & Speech"@ {
        Some(Category::TalkingHeadSpeech)
    } else if s == "Motivational Speech"@ {
        Some(Category::MotivationalSpeech)
    } else if s == "Commentary"@ {
        Some(Category::Commentary)
    } else if s == "Interview"@ {
        Some(Category::Interview)
    } else if s == "Entertainment"@ {
        Some(Category::Entertainment)
    } else if s == "Movies"@ {
        Some(Category::Movies)
    } else if s == "Drama Shows"@ {
        Some(Category::DramaShows)
    } else if s == "Reality & Talk Shows"@ {
        Some(Category::RealityTalkShows)
    } else if s == "News"@ {
        Some(Category::News)
    } else if s == "Informative & Educational"@ {
        Some(Category::InformativeEducational)
    } else if s == "Product Reviews"@ {
        Some(Category::ProductReviews)
    } else if s == "History"@ {
        Some(Category::History)
    } else if s == "Science & Tech"@ {
        Some(Category::ScienceTech)
    } else if s == "Music"@ {
        Some(Category::Music)
    } else if s == "Gaming"@ {
        Some(Category::Gaming)
    } else {
        None
    }
}

/// The category that the wire text `s` resolves to: the fixed category of
/// that name where one exists, and otherwise the open fallback carrying `s`
/// itself.
pub open spec fn resolves(s: Seq<char>, c: Category) -> bool {
    match fixed_of(s) {
        Some(f) => c == f,
        None => c matches Category::Other(t) && t@ == s,
    }
}

/// Resolves a wire string to a category. Any string is accepted: one that
/// names no fixed category becomes `Other` with that literal text.
pub fn from_wire(s: &str) -> (c: Category)
    ensures
        resolves(s@, c),
{
    if str_eq(s, "Podcast") {
        Category::Podcast
    } else if str_eq(s, "Lifestyle") {
        Category::Lifestyle
    } else if str_eq(s, "Vlog") {
        Category::Vlog
    } else if str_eq(s, "Travel") {
        Category::Travel
    } else if str_eq(s, "Food & Cooking") {
        Category::FoodCooking
    } else if str_eq(s, "Beauty & Fashion") {
        Category::BeautyFashion
    } else if str_eq(s, "Fitness") {
        Category::Fitness
    } else if str_eq(s, "Sports") {
        Category::Sports
    } else if str_eq(s, "Basketball") {
        Category::Basketball
    } else if str_eq(s, "Soccer") {
        Category::Soccer
    } else if str_eq(s, "American Football") {
        Category::AmericanFootball
    } else if str_eq(s, "Marketing & Webinar") {
        Category::MarketingWebinar
    } else if str_eq(s, "Talking Head & Speech") {
        Category::TalkingHeadSpeech
    } else if str_eq(s, "Motivational Speech") {
        Category::MotivationalSpeech
    } else if str_eq(s, "Commentary") {
        Category::Commentary
    } else if str_eq(s, "Interview") {
        Category::Interview
    } else if str_eq(s, "Entertainment") {
        Category::Entertainment
    } else if str_eq(s, "Movies") {
        Category::Movies
    } else if str_eq(s, "Drama Shows") {
        Category::DramaShows
    } else if str_eq(s, "Reality & Talk Shows") {
        Category::RealityTalkShows
    } else if str_eq(s, "News") {
        Category::News
    } else if str_eq(s, "Informative & Educational") {
        Category::InformativeEducational
    } else if str_eq(s, "Product Reviews") {
        Category::ProductReviews
    } else if str_eq(s, "History") {
        Category::History
    } else if str_eq(s, "Science & Tech") {
        Category::ScienceTech
    } else if str_eq(s, "Music") {
        Category::Music
    } else if str_eq(s, "Gaming") {
        Category::Gaming
    } else {
        Category::Other(s.to_owned())
    }
}

/// Resolution never changes the display text: whatever category a wire
/// string resolves to, that category displays as the wire string itself.
pub proof fn lemma_resolution_preserves_display(s: Seq<char>, c: Category)
    requires
        resolves(s, c),
    ensures
        c.display_spec() == s,
{
}

/// The display texts of a sequence of categories joined in order with a
/// comma-and-space separator.
pub open spec fn joined_spec(cats: Seq<Category>) -> Seq<char>
    decreases cats.len(),
{
    if cats.len() == 0 {
        Seq::empty()
    } else if cats.len() == 1 {
        cats[0].display_spec()
    } else {
        joined_spec(cats.drop_last()) + ", "@ + cats.last().display_spec()
    }
}

/// Joins the display texts of the given categories, in their original order,
/// separated by a comma and a space.
pub fn join_display(cats: &Vec<Category>) -> (s: String)
    ensures
        s@ == joined_spec(cats@),
{
    let mut s = String::new();
    let mut i: usize = 0;
    while i < cats.len()
        invariant
            i <= cats@.len(),
            s@ == joined_spec(cats@.take(i as int)),
        decreases cats@.len() - i,
    {
        if i > 0 {
            s.append(", ");
        }
        let d = cats[i].display();
        s.append(d.as_str());
        proof {
            let pre = cats@.take(i as int);
            let post = cats@.take(i as int + 1);
            assert(post.drop_last() =~= pre);
            assert(post.last() == cats@[i as int]);
            assert(s@ =~= joined_spec(post));
        }
        i = i + 1;
    }
    proof {
        assert(cats@.take(cats@.len() as int) =~= cats@);
    }
    s
}

} // verus!
