//! Derivation of output file names.
use vstd::prelude::*;
use crate::format::ImageFormat;
use crate::options::ConversionOptions;
use crate::text::{decimal_text, replace_all, replace_text, u64_to_text};

verus! {

/// The suffix that records the short side of an image and, but for PNG, the quality:
/// `-<short>p` or `-<short>p-<quality>q`.
pub open spec fn smart_suffix(width: u32, height: u32, quality: u8, format: ImageFormat) -> Seq<
    char,
> {
    let short = if width <= height {
        width
    } else {
        height
    };
    let base = seq!['-'] + decimal_text(short as nat) + seq!['p'];
    if format == ImageFormat::Png {
        base
    } else {
        base + seq!['-'] + decimal_text(quality as nat) + seq!['q']
    }
}

/// Generates the resolution and quality suffix for file names.
pub fn get_smart_suffix(width: u32, height: u32, quality: u8, format: ImageFormat) -> (r: String)
    ensures
        r@ == smart_suffix(width, height, quality, format),
{
    proof {
        reveal_strlit("-");
        reveal_strlit("p");
        reveal_strlit("q");
    }
    let short = if width <= height {
        width
    } else {
        height
    };
    let mut s = String::from_str("-");
    let digits = u64_to_text(short as u64);
    s.append(digits.as_str());
    s.append("p");
    if format != ImageFormat::Png {
        s.append("-");
        let q = u64_to_text(quality as u64);
        s.append(q.as_str());
        s.append("q");
    }
    assert(s@ =~= smart_suffix(width, height, quality, format));
    s
}

/// The stem after the find/replace rule; an empty pattern leaves it unchanged.
pub open spec fn renamed_stem(stem: Seq<char>, find: Seq<char>, rep: Seq<char>) -> Seq<char> {
    if find.len() == 0 {
        stem
    } else {
        replace_all(stem, find, rep)
    }
}

/// The output file name for a source with the given stem: prefix, renamed stem, the smart
/// suffix when asked for and the dimensions are known, and the extension of the target format.
pub open spec fn target_filename(
    stem: Seq<char>,
    dimensions: Option<(u32, u32)>,
    o: ConversionOptions,
) -> Seq<char> {
    let renamed = renamed_stem(stem, o.find_pattern@, o.replace_with@);
    let suffix = match dimensions {
        Some(d) => if o.auto_suffix {
            smart_suffix(d.0, d.1, o.quality, o.format)
        } else {
            Seq::empty()
        },
        None => Seq::empty(),
    };
    o.prefix@ + renamed + suffix + seq!['.'] + o.format.spec_extension()
}

/// Generates the target file name for a source file stem; `dimensions` are the image's width
/// and height where known.
pub fn get_target_filename(
    file_stem: &str,
    dimensions: Option<(u32, u32)>,
    options: &ConversionOptions,
) -> (r: String)
    ensures
        r@ == target_filename(file_stem@, dimensions, *options),
{
    proof {
        reveal_strlit(".");
    }
    let mut name = options.prefix.clone();
    if options.find_pattern.as_str().unicode_len() > 0 {
        let renamed = replace_text(
            file_stem,
            options.find_pattern.as_str(),
            options.replace_with.as_str(),
        );
        name.append(renamed.as_str());
    } else {
        name.append(file_stem);
    }
    if options.auto_suffix {
        if let Some((w, h)) = dimensions {
            let suffix = get_smart_suffix(w, h, options.quality, options.format);
            name.append(suffix.as_str());
        }
    }
    name.append(".");
    name.append(options.format.extension());
    assert(name@ =~= target_filename(file_stem@, dimensions, *options));
    name
}

} // verus!
