//! Where the in-vehicle digital twin service is: the URI given in the
//! settings, or one that Chariott's service discovery reports.

use vstd::prelude::*;

verus! {

/// Where the in-vehicle digital twin service's URI comes from.
#[derive(Debug)]
pub enum UriSource {
    /// The settings give the URI.
    Configured(String),
    /// Chariott, at this URI, is to be asked for it.
    Chariott(String),
}

/// Decide where the in-vehicle digital twin service's URI comes from: the URI
/// in the settings if there is one, else Chariott if its URI is set; with
/// neither, `missing_message`.
///
/// # Arguments
/// * `invehicle_digital_twin_uri` - Optional, In-Vehicle Digital Twin URI.
/// * `chariott_uri` - Optional, Chariott URI.
/// * `missing_message` - The error when neither is set.
pub fn choose_uri_source(
    invehicle_digital_twin_uri: Option<String>,
    chariott_uri: Option<String>,
    missing_message: &str,
) -> (r: Result<UriSource, String>)
    ensures
        invehicle_digital_twin_uri matches Some(u) ==> (r matches Ok(UriSource::Configured(v)) && v@ == u@),
        invehicle_digital_twin_uri is None ==> (chariott_uri matches Some(c) ==> (r matches Ok(UriSource::Chariott(v)) && v@ == c@)),
        invehicle_digital_twin_uri is None ==> (chariott_uri is None ==> (r matches Err(m) && m@ == missing_message@)),
{
    match invehicle_digital_twin_uri {
        Some(value) => Ok(UriSource::Configured(value)),
        None => match chariott_uri {
            Some(value) => Ok(UriSource::Chariott(value)),
            None => Err(String::from_str(missing_message)),
        },
    }
}

} // verus!
