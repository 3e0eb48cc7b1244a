use vstd::prelude::*;
use crate::paths::spec_extension_of;

verus! {

/// The media type that the standard extension table assigns to a filename
/// extension, if it knows the extension at all.
pub open spec fn spec_mime_for_extension(ext: Seq<char>) -> Option<Seq<char>> {
    if ext == "html"@ {
        Some("text/html"@)
    } else if ext == "js"@ || ext == "mjs"@ || ext == "jsonp"@ {
        Some("application/javascript"@)
    } else if ext == "json"@ {
        Some("application/json"@)
    } else if ext == "css"@ {
        Some("text/css"@)
    } else if ext == "svg"@ {
        Some("image/svg+xml"@)
    } else if ext == "xml"@ {
        Some("application/xml"@)
    } else {
        None
    }
}

/// The media type a freshly built text body carries before any inference:
/// plain text.
pub open spec fn spec_plain_mime() -> Seq<char> {
    "text/plain"@
}

/// The media type a rendered template's body ends up with: the one the
/// extension table assigns to the identifier's extension, or plain text
/// where the extension is absent or unrecognized.
pub open spec fn spec_template_mime(name: Seq<char>) -> Seq<char> {
    match spec_extension_of(name) {
        Some(ext) => match spec_mime_for_extension(ext) {
            Some(mime) => mime,
            None => spec_plain_mime(),
        },
        None => spec_plain_mime(),
    }
}

/// A template identifier ending in `.html` is always assigned the
/// `text/html` media type.
pub proof fn lemma_html_template_mime(name: Seq<char>)
    requires
        name.len() >= 5,
        name.subrange(name.len() - 5, name.len() as int) == ".html"@,
    ensures
        spec_template_mime(name) == "text/html"@,
{
    reveal_strlit(".html");
    reveal_strlit("html");
    let n = name.len() as int;
    let s1 = name.subrange(0, n - 1);
    let s2 = name.subrange(0, n - 2);
    let s3 = name.subrange(0, n - 3);
    let s4 = name.subrange(0, n - 4);
    assert(name[n - 1] == 'l' && name[n - 2] == 'm' && name[n - 3] == 't' && name[n - 4] == 'h'
        && name[n - 5] == '.') by {
        assert(name.subrange(n - 5, n) == ".html"@);
        assert(name.subrange(n - 5, n)[4] == 'l');
        assert(name.subrange(n - 5, n)[3] == 'm');
        assert(name.subrange(n - 5, n)[2] == 't');
        assert(name.subrange(n - 5, n)[1] == 'h');
        assert(name.subrange(n - 5, n)[0] == '.');
    }
    assert(s4.last() == '.');
    assert(spec_extension_of(s4) == Some(Seq::<char>::empty()));
    assert(s3.drop_last() =~= s4 && s3.last() == 'h');
    assert(spec_extension_of(s3) == Some(Seq::<char>::empty().push('h')));
    assert(s2.drop_last() =~= s3 && s2.last() == 't');
    assert(spec_extension_of(s2) == Some(Seq::<char>::empty().push('h').push('t')));
    assert(s1.drop_last() =~= s2 && s1.last() == 'm');
    assert(spec_extension_of(s1) == Some(Seq::<char>::empty().push('h').push('t').push('m')));
    assert(name.drop_last() =~= s1 && name.last() == 'l');
    assert(spec_extension_of(name) == Some(
        Seq::<char>::empty().push('h').push('t').push('m').push('l'),
    ));
    assert(Seq::<char>::empty().push('h').push('t').push('m').push('l') =~= "html"@);
}

/// A template identifier without an extension, or with an extension the
/// table does not know, keeps the default plain-text media type.
pub proof fn lemma_unrecognized_extension_mime(name: Seq<char>)
    requires
        match spec_extension_of(name) {
            Some(ext) => spec_mime_for_extension(ext) is None,
            None => true,
        },
    ensures
        spec_template_mime(name) == spec_plain_mime(),
{
}

} // verus!
