//! The query that is sent to the catalogue, and the choice among its
//! answers.

use vstd::prelude::*;
use vstd::string::*;
use crate::json::{member, parse, parsed_json};
use crate::search_result::{
    candidates_of, candidates_view, parse_search_result, Candidate, SearchResult,
};
use crate::text::{opt_text, to_upper, uppercase_of};

verus! {

/// The criteria of a search. Each one that is present narrows the search.
#[derive(Debug)]
pub struct CDSESearch {
    /// The name of the satellite's collection.
    pub satellite: Option<String>,
    /// The area of interest as a geometry in the catalogue's notation, such
    /// as `POLYGON((4 51,5 51,5 52,4 51))`.
    pub area: Option<String>,
    /// The largest cloud cover in percent, as a decimal number.
    pub max_cloud_cover: Option<String>,
}

/// The criteria of a search, with strings as sequences of characters.
pub ghost struct Criteria {
    pub satellite: Option<Seq<char>>,
    pub area: Option<Seq<char>>,
    pub max_cloud_cover: Option<Seq<char>>,
}

impl View for CDSESearch {
    type V = Criteria;

    open spec fn view(&self) -> Criteria {
        Criteria {
            satellite: opt_text(self.satellite),
            area: opt_text(self.area),
            max_cloud_cover: opt_text(self.max_cloud_cover),
        }
    }
}

/// The clause of the filter that a criterion contributes: nothing where the
/// criterion is absent, else its value between `before` and `after`.
pub open spec fn clause(before: Seq<char>, value: Option<Seq<char>>, after: Seq<char>) -> Seq<char> {
    match value {
        Some(v) => before + v + after,
        None => Seq::empty(),
    }
}

/// The address of the catalogue's product list with the opening of a
/// filter.
pub open spec fn query_base() -> Seq<char> {
    "https://catalogue.dataspace.copernicus.eu/odata/v1/Products?$filter="@
}

/// The query before its end is trimmed: the base and one clause for each
/// criterion that is present, each clause ending in ` and `.
pub open spec fn untrimmed_query(c: Criteria) -> Seq<char> {
    query_base() + clause("Collection/Name eq '"@, c.satellite, "' and "@) + clause(
        "OData.CSC.Intersects(area=geography'SRID=4326;"@,
        c.area,
        "') and "@,
    ) + clause(
        "Attributes/OData.CSC.DoubleAttribute/any(att:att/Name eq 'cloudCover' and att/OData.CSC.DoubleAttribute/Value le "@,
        c.max_cloud_cover,
        ") and "@,
    )
}

/// The query for a search: the untrimmed query without its last five
/// characters, which are the ` and ` of the last clause where a criterion is
/// present, followed by the request to list the newest acquisition first.
/// With no criterion the five characters are taken off the base.
pub open spec fn query_url(c: Criteria) -> Seq<char> {
    untrimmed_query(c).subrange(0, untrimmed_query(c).len() - 5)
        + "&$orderby=ContentDate/Start desc"@
}

/// Appends to `url` the clause that a criterion contributes.
fn push_clause(url: &mut String, before: &str, value: &Option<String>, after: &str)
    ensures
        final(url)@ == old(url)@ + clause(before@, opt_text(*value), after@),
{
    match value {
        Some(v) => {
            url.append(before);
            url.append(v.as_str());
            url.append(after);
        },
        None => {},
    }
}

/// The address to ask the catalogue at for the products that meet the
/// criteria, newest acquisition first.
pub fn search_url(cdsesearch: &CDSESearch) -> (r: String)
    ensures
        r@ == query_url(cdsesearch@),
{
    let mut url = String::from_str(
        "https://catalogue.dataspace.copernicus.eu/odata/v1/Products?$filter=",
    );
    proof {
        reveal_strlit("https://catalogue.dataspace.copernicus.eu/odata/v1/Products?$filter=");
    }
    push_clause(&mut url, "Collection/Name eq '", &cdsesearch.satellite, "' and ");
    push_clause(
        &mut url,
        "OData.CSC.Intersects(area=geography'SRID=4326;",
        &cdsesearch.area,
        "') and ",
    );
    push_clause(
        &mut url,
        "Attributes/OData.CSC.DoubleAttribute/any(att:att/Name eq 'cloudCover' and att/OData.CSC.DoubleAttribute/Value le ",
        &cdsesearch.max_cloud_cover,
        ") and ",
    );
    let n: usize = url.as_str().unicode_len();
    let mut r = String::from_str(url.as_str().substring_char(0, n - 5));
    r.append("&$orderby=ContentDate/Start desc");
    r
}

/// The points of a ring, each as the text of its two coordinates.
pub open spec fn points_of(points: Seq<(String, String)>) -> Seq<(Seq<char>, Seq<char>)> {
    Seq::new(points.len(), |i: int| (points[i].0@, points[i].1@))
}

/// The points of a ring in the catalogue's notation, before the end is
/// trimmed: for each point its two coordinates, parted by a blank and
/// followed by a comma.
pub open spec fn ring_text(points: Seq<(Seq<char>, Seq<char>)>) -> Seq<char>
    decreases points.len(),
{
    if points.len() == 0 {
        Seq::empty()
    } else {
        ring_text(points.drop_last()) + points.last().0 + " "@ + points.last().1 + ","@
    }
}

/// A geometry in the catalogue's notation: the kind in upper case, two
/// opening brackets, the points without the comma after the last, and two
/// closing brackets. Where there is no point, the character that is trimmed
/// is the second opening bracket.
pub open spec fn geometry_text(kind: Seq<char>, points: Seq<(Seq<char>, Seq<char>)>) -> Seq<char> {
    let untrimmed = uppercase_of(kind) + "(("@ + ring_text(points);
    untrimmed.subrange(0, untrimmed.len() - 1) + "))"@
}

/// Writes a ring of points as a geometry of the given kind in the
/// catalogue's notation. Each point is given by the decimal text of its two
/// coordinates.
pub fn geometry_to_odata(kind: &str, points: &Vec<(String, String)>) -> (r: String)
    ensures
        r@ == geometry_text(kind@, points_of(points@)),
{
    let mut to_return = to_upper(kind);
    to_return.append("((");
    proof {
        reveal_strlit("((");
    }
    let mut i: usize = 0;
    while i < points.len()
        invariant
            0 <= i <= points@.len(),
            "(("@.len() == 2,
            to_return@ == uppercase_of(kind@) + "(("@ + ring_text(points_of(points@).take(i as int)),
        decreases points@.len() - i,
    {
        to_return.append(points[i].0.as_str());
        to_return.append(" ");
        to_return.append(points[i].1.as_str());
        to_return.append(",");
        proof {
            let all = points_of(points@);
            assert(all.take(i + 1).drop_last() =~= all.take(i as int));
        }
        i += 1;
    }
    proof {
        assert(points_of(points@).take(points@.len() as int) =~= points_of(points@));
    }
    let n: usize = to_return.as_str().unicode_len();
    let mut r = String::from_str(to_return.as_str().substring_char(0, n - 1));
    r.append("))");
    r
}

/// The search results that the text of an answer of the catalogue holds:
/// those of the array under `value`.
pub open spec fn answer_candidates(body: Seq<char>) -> Option<Seq<Candidate>> {
    match parsed_json(body) {
        Some(answer) => match answer.member("value"@) {
            Some(list) => candidates_of(list),
            None => None,
        },
        None => None,
    }
}

/// Reads the search results out of the text of an answer of the catalogue.
pub fn parse_search_response(body: &str) -> (r: Option<Vec<SearchResult>>)
    ensures
        candidates_view(r) == answer_candidates(body@),
{
    match parse(body) {
        Some(answer) => match member(&answer, "value") {
            Some(list) => parse_search_result(list),
            None => None,
        },
        None => None,
    }
}

/// The id of the product to serve for a search: that of the first result,
/// which is the newest acquisition.
pub fn latest(results: &Vec<SearchResult>) -> (r: Option<String>)
    ensures
        results@.len() == 0 ==> r is None,
        results@.len() > 0 ==> opt_text(r) == Some(results@[0].id@),
{
    if results.len() == 0 {
        None
    } else {
        Some(results[0].id.clone())
    }
}

} // verus!
