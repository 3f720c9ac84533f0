//! Persistence of conversion options as key/value text pairs.
use vstd::prelude::*;
use crate::format::ImageFormat;
use crate::options::ConversionOptions;
use crate::text::{
    decimal_text, lemma_decimal_round_trip, parse_at_most, parsed_at_most, str_equals, u64_to_text,
};

verus! {

/// The value stored under `key`: that of the first pair with that key.
pub open spec fn lookup(stored: Seq<(Seq<char>, Seq<char>)>, key: Seq<char>) -> Option<Seq<char>>
    decreases stored.len(),
{
    if stored.len() == 0 {
        None
    } else if stored[0].0 == key {
        Some(stored[0].1)
    } else {
        lookup(stored.drop_first(), key)
    }
}

/// A flag setting: the stored value is `true` exactly when it reads `true`.
pub open spec fn flag_setting(stored: Seq<(Seq<char>, Seq<char>)>, key: Seq<char>, default: bool) -> bool {
    match lookup(stored, key) {
        Some(v) => v == "true"@,
        None => default,
    }
}

/// A text setting.
pub open spec fn text_setting(stored: Seq<(Seq<char>, Seq<char>)>, key: Seq<char>, default: Seq<char>) -> Seq<char> {
    match lookup(stored, key) {
        Some(v) => v,
        None => default,
    }
}

/// A number setting: a stored value that does not parse as a number up to `max` reads as
/// `fallback`.
pub open spec fn number_setting(
    stored: Seq<(Seq<char>, Seq<char>)>,
    key: Seq<char>,
    max: int,
    fallback: int,
    default: int,
) -> int {
    match lookup(stored, key) {
        Some(v) => match parsed_at_most(v, max) {
            Some(n) => n,
            None => fallback,
        },
        None => default,
    }
}

/// The stored output format: `Png` and `WebP` name theirs, anything else is JPEG.
pub open spec fn format_setting(stored: Seq<(Seq<char>, Seq<char>)>) -> ImageFormat {
    match lookup(stored, "format"@) {
        Some(v) => if v == "Png"@ {
            ImageFormat::Png
        } else if v == "WebP"@ {
            ImageFormat::WebP
        } else {
            ImageFormat::Jpeg
        },
        None => ImageFormat::Jpeg,
    }
}

/// The options loaded from the stored pairs, every absent key keeping its default.
pub open spec fn is_loaded_from(o: ConversionOptions, s: Seq<(Seq<char>, Seq<char>)>) -> bool {
    &&& o.format == format_setting(s)
    &&& o.quality == number_setting(s, "quality"@, u8::MAX as int, 80, 80)
    &&& o.png_compressed == flag_setting(s, "png_compressed"@, true)
    &&& o.resize == flag_setting(s, "resize"@, false)
    &&& o.target_width@ == text_setting(s, "target_width"@, Seq::empty())
    &&& o.target_height@ == text_setting(s, "target_height"@, Seq::empty())
    &&& o.prefix@ == text_setting(s, "prefix"@, Seq::empty())
    &&& o.find_pattern@.len() == 0
    &&& o.replace_with@.len() == 0
    &&& o.auto_suffix == flag_setting(s, "auto_suffix"@, false)
    &&& o.keep_metadata == flag_setting(s, "keep_metadata"@, false)
    &&& o.use_custom_output == flag_setting(s, "use_custom_output"@, false)
    &&& match lookup(s, "custom_output_path"@) {
        Some(v) => if v.len() > 0 {
            o.custom_output_path matches Some(p) && p@ == v
        } else {
            o.custom_output_path is None
        },
        None => o.custom_output_path is None,
    }
    &&& o.generate_log == flag_setting(s, "generate_log"@, false)
    &&& o.add_numbering == flag_setting(s, "add_numbering"@, false)
    &&& o.is_dark_mode == flag_setting(s, "is_dark_mode"@, false)
    &&& o.max_batch_size == number_setting(s, "max_batch_size"@, usize::MAX as int, 10, 50)
}

/// Looks up the value stored under `key`.
pub fn get_value(stored: &Vec<(String, String)>, key: &str) -> (r: Option<String>)
    ensures
        match r {
            Some(v) => lookup(stored.deep_view(), key@) == Some(v@),
            None => lookup(stored.deep_view(), key@) is None,
        },
{
    let ghost s = stored.deep_view();
    let mut i: usize = 0;
    assert(s.subrange(0, s.len() as int) =~= s);
    while i < stored.len()
        invariant
            i <= stored@.len(),
            s == stored.deep_view(),
            lookup(s, key@) == lookup(s.subrange(i as int, s.len() as int), key@),
        decreases stored@.len() - i,
    {
        let ghost rest = s.subrange(i as int, s.len() as int);
        assert(rest.drop_first() =~= s.subrange(i + 1, s.len() as int));
        assert(rest[0] == s[i as int]);
        assert(s[i as int] == (stored@[i as int].0@, stored@[i as int].1@));
        if str_equals(stored[i].0.as_str(), key) {
            return Some(stored[i].1.clone());
        }
        i = i + 1;
    }
    None
}

fn flag_value(stored: &Vec<(String, String)>, key: &str, default: bool) -> (r: bool)
    ensures
        r == flag_setting(stored.deep_view(), key@, default),
{
    match get_value(stored, key) {
        Some(v) => str_equals(v.as_str(), "true"),
        None => default,
    }
}

/// Builds the options from the stored key/value pairs; absent keys keep their defaults.
pub fn load_settings(stored: &Vec<(String, String)>) -> (r: ConversionOptions)
    ensures
        is_loaded_from(r, stored.deep_view()),
{
    let mut opts = ConversionOptions::default();
    assert(opts.target_width@ =~= Seq::<char>::empty());
    assert(opts.target_height@ =~= Seq::<char>::empty());
    assert(opts.prefix@ =~= Seq::<char>::empty());
    if let Some(v) = get_value(stored, "format") {
        opts.format = if str_equals(v.as_str(), "Png") {
            ImageFormat::Png
        } else if str_equals(v.as_str(), "WebP") {
            ImageFormat::WebP
        } else {
            ImageFormat::Jpeg
        };
    }
    if let Some(v) = get_value(stored, "quality") {
        opts.quality = match parse_at_most(v.as_str(), u8::MAX as u64) {
            Some(n) => n as u8,
            None => 80,
        };
    }
    opts.png_compressed = flag_value(stored, "png_compressed", true);
    opts.resize = flag_value(stored, "resize", false);
    if let Some(v) = get_value(stored, "target_width") {
        opts.target_width = v;
    }
    if let Some(v) = get_value(stored, "target_height") {
        opts.target_height = v;
    }
    if let Some(v) = get_value(stored, "prefix") {
        opts.prefix = v;
    }
    opts.auto_suffix = flag_value(stored, "auto_suffix", false);
    opts.keep_metadata = flag_value(stored, "keep_metadata", false);
    opts.use_custom_output = flag_value(stored, "use_custom_output", false);
    if let Some(v) = get_value(stored, "custom_output_path") {
        if v.as_str().unicode_len() > 0 {
            opts.custom_output_path = Some(v);
        }
    }
    opts.generate_log = flag_value(stored, "generate_log", false);
    opts.add_numbering = flag_value(stored, "add_numbering", false);
    opts.is_dark_mode = flag_value(stored, "is_dark_mode", false);
    if let Some(v) = get_value(stored, "max_batch_size") {
        opts.max_batch_size = match parse_at_most(v.as_str(), usize::MAX as u64) {
            Some(n) => n as usize,
            None => 10,
        };
    }
    opts
}

/// The text a flag is stored as.
pub open spec fn flag_text(b: bool) -> Seq<char> {
    if b {
        "true"@
    } else {
        "false"@
    }
}

/// The name a format is stored as.
pub open spec fn format_text(f: ImageFormat) -> Seq<char> {
    match f {
        ImageFormat::Jpeg => "Jpeg"@,
        ImageFormat::Png => "Png"@,
        ImageFormat::WebP => "WebP"@,
    }
}

/// The key/value pairs the options are stored as, in this order.
pub open spec fn saved_pairs(o: ConversionOptions) -> Seq<(Seq<char>, Seq<char>)> {
    seq![
        ("format"@, format_text(o.format)),
        ("quality"@, decimal_text(o.quality as nat)),
        ("png_compressed"@, flag_text(o.png_compressed)),
        ("resize"@, flag_text(o.resize)),
        ("target_width"@, o.target_width@),
        ("target_height"@, o.target_height@),
        ("prefix"@, o.prefix@),
        ("auto_suffix"@, flag_text(o.auto_suffix)),
        ("keep_metadata"@, flag_text(o.keep_metadata)),
        ("use_custom_output"@, flag_text(o.use_custom_output)),
        ("custom_output_path"@, match o.custom_output_path {
            Some(p) => p@,
            None => Seq::empty(),
        }),
        ("generate_log"@, flag_text(o.generate_log)),
        ("add_numbering"@, flag_text(o.add_numbering)),
        ("is_dark_mode"@, flag_text(o.is_dark_mode)),
        ("max_batch_size"@, decimal_text(o.max_batch_size as nat)),
    ]
}

fn flag_string(b: bool) -> (r: String)
    ensures
        r@ == flag_text(b),
{
    if b {
        String::from_str("true")
    } else {
        String::from_str("false")
    }
}

fn pair(key: &str, value: String) -> (r: (String, String))
    ensures
        r.0@ == key@,
        r.1@ == value@,
{
    (String::from_str(key), value)
}

/// The key/value pairs that store the options.
#[verifier::rlimit(60)]
pub fn save_settings(opts: &ConversionOptions) -> (r: Vec<(String, String)>)
    ensures
        r.deep_view() == saved_pairs(*opts),
{
    let format = match opts.format {
        ImageFormat::Jpeg => String::from_str("Jpeg"),
        ImageFormat::Png => String::from_str("Png"),
        ImageFormat::WebP => String::from_str("WebP"),
    };
    let path = match &opts.custom_output_path {
        Some(p) => p.clone(),
        None => String::new(),
    };
    let mut out: Vec<(String, String)> = Vec::new();
    out.push(pair("format", format));
    out.push(pair("quality", u64_to_text(opts.quality as u64)));
    out.push(pair("png_compressed", flag_string(opts.png_compressed)));
    out.push(pair("resize", flag_string(opts.resize)));
    out.push(pair("target_width", opts.target_width.clone()));
    out.push(pair("target_height", opts.target_height.clone()));
    out.push(pair("prefix", opts.prefix.clone()));
    out.push(pair("auto_suffix", flag_string(opts.auto_suffix)));
    out.push(pair("keep_metadata", flag_string(opts.keep_metadata)));
    out.push(pair("use_custom_output", flag_string(opts.use_custom_output)));
    out.push(pair("custom_output_path", path));
    out.push(pair("generate_log", flag_string(opts.generate_log)));
    out.push(pair("add_numbering", flag_string(opts.add_numbering)));
    out.push(pair("is_dark_mode", flag_string(opts.is_dark_mode)));
    out.push(pair("max_batch_size", u64_to_text(opts.max_batch_size as u64)));
    proof {
        let d = out.deep_view();
        let s = saved_pairs(*opts);
        assert(d.len() == s.len());
        assert forall|i: int| 0 <= i < d.len() implies d[i] == s[i] by {
            assert(d[i] == (out@[i].0@, out@[i].1@));
        }
        assert(d =~= s);
    }
    out
}

/// Saving the options and loading the saved pairs restores every persisted option: format,
/// quality, flags, size fields, prefix, batch size, and the output folder unless it is empty.
pub proof fn lemma_save_load_round_trip(o: ConversionOptions, loaded: ConversionOptions)
    requires
        is_loaded_from(loaded, saved_pairs(o)),
    ensures
        loaded.format == o.format,
        loaded.quality == o.quality,
        loaded.png_compressed == o.png_compressed,
        loaded.resize == o.resize,
        loaded.target_width@ == o.target_width@,
        loaded.target_height@ == o.target_height@,
        loaded.prefix@ == o.prefix@,
        loaded.auto_suffix == o.auto_suffix,
        loaded.keep_metadata == o.keep_metadata,
        loaded.use_custom_output == o.use_custom_output,
        loaded.generate_log == o.generate_log,
        loaded.add_numbering == o.add_numbering,
        loaded.is_dark_mode == o.is_dark_mode,
        loaded.max_batch_size == o.max_batch_size,
        match o.custom_output_path {
            Some(p) => if p@.len() > 0 {
                loaded.custom_output_path matches Some(q) && q@ == p@
            } else {
                loaded.custom_output_path is None
            },
            None => loaded.custom_output_path is None,
        },
{
    reveal_strlit("format");
    reveal_strlit("quality");
    reveal_strlit("png_compressed");
    reveal_strlit("resize");
    reveal_strlit("target_width");
    reveal_strlit("target_height");
    reveal_strlit("prefix");
    reveal_strlit("auto_suffix");
    reveal_strlit("keep_metadata");
    reveal_strlit("use_custom_output");
    reveal_strlit("custom_output_path");
    reveal_strlit("generate_log");
    reveal_strlit("add_numbering");
    reveal_strlit("is_dark_mode");
    reveal_strlit("max_batch_size");
    reveal_strlit("true");
    reveal_strlit("false");
    reveal_strlit("Jpeg");
    reveal_strlit("Png");
    reveal_strlit("WebP");
    let s = saved_pairs(o);
    reveal_with_fuel(lookup, 16);
    lemma_decimal_round_trip(o.quality as nat);
    lemma_decimal_round_trip(o.max_batch_size as nat);
    assert("true"@.len() == 4 && "false"@.len() == 5);
    assert("Jpeg"@.len() == 4 && "Png"@.len() == 3 && "WebP"@.len() == 4);
    assert("Jpeg"@[0] == 'J' && "WebP"@[0] == 'W');
    assert("format"@.len() == 6 && "quality"@.len() == 7 && "png_compressed"@.len() == 14);
    assert("resize"@.len() == 6 && "target_width"@.len() == 12 && "target_height"@.len() == 13);
    assert("prefix"@.len() == 6 && "auto_suffix"@.len() == 11 && "keep_metadata"@.len() == 13);
    assert("use_custom_output"@.len() == 17 && "custom_output_path"@.len() == 18);
    assert("generate_log"@.len() == 12 && "add_numbering"@.len() == 13);
    assert("is_dark_mode"@.len() == 12 && "max_batch_size"@.len() == 14);
    assert("format"@[0] == 'f' && "resize"@[0] == 'r' && "prefix"@[0] == 'p');
    assert("target_width"@[0] == 't' && "generate_log"@[0] == 'g' && "is_dark_mode"@[0] == 'i');
    assert("target_height"@[0] == 't' && "keep_metadata"@[0] == 'k' && "add_numbering"@[0] == 'a');
    assert("png_compressed"@[0] == 'p' && "max_batch_size"@[0] == 'm');
}

} // verus!
