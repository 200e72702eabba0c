use vstd::prelude::*;
use vstd::string::StringExecFns;

verus! {

/// A data source: a short id and the name of the environment variable that
/// holds its campaign-feed URL.
pub struct Brand {
    pub id: String,
    pub env_key: String,
}

impl Brand {
    /// The fatal diagnostic for a brand whose URL variable is unset: it
    /// names the missing variable.
    pub open spec fn missing_url_spec(&self) -> Seq<char> {
        self.env_key@ + " URL is not set (check .env)"@
    }

    /// Build the fatal diagnostic for this brand's unset URL variable.
    pub fn missing_url_message(&self) -> (r: String)
        ensures
            r@ == self.missing_url_spec(),
    {
        let mut r = self.env_key.clone();
        proof {
            assert(r@ =~= self.env_key@);
        }
        r.append(" URL is not set (check .env)");
        r
    }
}

/// The fixed registry: two brands, in the order their sections are
/// reported.
pub fn brands() -> (r: Vec<Brand>)
    ensures
        r@.len() == 2,
        r@[0].id@ == "mcom"@,
        r@[0].env_key@ == "MCOM"@,
        r@[1].id@ == "bcom"@,
        r@[1].env_key@ == "BCOM"@,
{
    let mut r: Vec<Brand> = Vec::new();
    r.push(Brand { id: String::from_str("mcom"), env_key: String::from_str("MCOM") });
    r.push(Brand { id: String::from_str("bcom"), env_key: String::from_str("BCOM") });
    r
}

} // verus!
