//! Options for the spider that crawls the Swedish code of statutes (SFS)
//! documents from the Riksdag's open-data API.
//!
//! Only the configuration lives here: the spider's fetching and persistence
//! are I/O and belong to the program embedding the engine.

use vstd::prelude::*;
use vstd::string::StringExecFns;

verus! {

/// The query for one page of the SFS document list, restricted to the
/// documents of one range of years.
pub open spec fn sfs_url_spec(from_year: Seq<char>, to_year: Seq<char>) -> Seq<char> {
    "https://data.riksdagen.se/dokumentlista/?sok=&doktyp=SFS&rm=&ts=&bet=&tempbet=&nr=&org=&iid=&avd=&webbtv=&talare=&exakt=&planering=&facets=&sort=rel&sortorder=desc&rapport=&utformat=json"@
        + "&from="@ + from_year + "-01-01&to="@ + to_year + "-12-31&a=s#soktraff"@
}

/// The year ranges the seed set covers, in order.
pub open spec fn sfs_year_ranges() -> Seq<(Seq<char>, Seq<char>)> {
    seq![
        ("1880"@, "1900"@),
        ("1901"@, "1920"@),
        ("1921"@, "1940"@),
        ("1941"@, "1960"@),
        ("1961"@, "1980"@),
        ("1981"@, "2000"@),
        ("2001"@, "2020"@),
        ("2021"@, "2023"@),
    ]
}

/// Builds the document-list query for one range of years.
fn sfs_url_for(from_year: &str, to_year: &str) -> (url: String)
    ensures
        url@ == sfs_url_spec(from_year@, to_year@),
{
    let mut url = String::from_str(
        "https://data.riksdagen.se/dokumentlista/?sok=&doktyp=SFS&rm=&ts=&bet=&tempbet=&nr=&org=&iid=&avd=&webbtv=&talare=&exakt=&planering=&facets=&sort=rel&sortorder=desc&rapport=&utformat=json",
    );
    url.append("&from=");
    url.append(from_year);
    url.append("-01-01&to=");
    url.append(to_year);
    url.append("-12-31&a=s#soktraff");
    url
}

/// The SFS spider's seed set: one document-list query per range of years,
/// covering 1880 through 2023.
pub fn start_urls() -> (urls: Vec<String>)
    ensures
        urls@.len() == sfs_year_ranges().len(),
        forall|i: int|
            0 <= i < urls@.len() ==> urls@[i]@ == sfs_url_spec(
                #[trigger] sfs_year_ranges()[i].0,
                sfs_year_ranges()[i].1,
            ),
{
    let mut urls: Vec<String> = Vec::new();
    urls.push(sfs_url_for("1880", "1900"));
    urls.push(sfs_url_for("1901", "1920"));
    urls.push(sfs_url_for("1921", "1940"));
    urls.push(sfs_url_for("1941", "1960"));
    urls.push(sfs_url_for("1961", "1980"));
    urls.push(sfs_url_for("1981", "2000"));
    urls.push(sfs_url_for("2001", "2020"));
    urls.push(sfs_url_for("2021", "2023"));
    urls
}

/// Configuration of the SFS spider: the user agent to present (the
/// program's own when absent) and the directory the fetched documents are
/// written under.
#[derive(Debug, Clone)]
pub struct SfsSpiderOptions {
    /// The user agent for outbound requests, or `None` for the default.
    pub user_agent: Option<String>,
    /// The directory that fetched documents are written under.
    pub output_path: String,
}

impl Default for SfsSpiderOptions {
    /// The default options: no explicit user agent, output under
    /// `./output`.
    fn default() -> (opts: SfsSpiderOptions)
        ensures
            opts.user_agent is None,
            opts.output_path@ == "./output"@,
    {
        SfsSpiderOptions { user_agent: None, output_path: String::from_str("./output") }
    }
}

} // verus!
