//! The plugin that groups the string utility commands for a host shell.
use vstd::prelude::*;

use crate::str_compress::StrCompress;
use crate::str_decompress::StrDecompress;
use crate::str_dedent::StrDedent;
use crate::str_indent::StrIndent;
use crate::str_shlquote::StrShlQuote;
use crate::str_shlsplit::StrShlSplit;
use crate::str_slug::StrSlug;
use crate::str_wrap::StrWrap;

verus! {

/// The string-utilities plugin: the set of commands this library provides.
pub struct StrutilsPlugin;

impl StrutilsPlugin {
    /// The plugin's version, matching the package version.
    pub fn version(&self) -> (r: String)
        ensures
            r@ == "0.1.0"@,
    {
        "0.1.0".to_string()
    }

    /// The names of the commands the plugin provides, in registration order.
    pub fn commands(&self) -> (r: Vec<String>)
        ensures
            r@.len() == 8,
            r@[0]@ == "str compress"@,
            r@[1]@ == "str decompress"@,
            r@[2]@ == "str wrap"@,
            r@[3]@ == "str dedent"@,
            r@[4]@ == "str indent"@,
            r@[5]@ == "str slug"@,
            r@[6]@ == "str shl-split"@,
            r@[7]@ == "str shl-quote"@,
    {
        let mut names: Vec<String> = Vec::new();
        names.push(StrCompress.name());
        names.push(StrDecompress.name());
        names.push(StrWrap.name());
        names.push(StrDedent.name());
        names.push(StrIndent.name());
        names.push(StrSlug.name());
        names.push(StrShlSplit.name());
        names.push(StrShlQuote.name());
        names
    }
}

} // verus!
