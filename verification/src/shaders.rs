//! The shaders the renderer knows by name.

use vstd::prelude::*;

verus! {

/// One of the renderer's shader programs.
#[derive(Clone, Copy, PartialEq, Eq, Structural, Debug)]
pub enum ShaderKind {
    /// Lit objects.
    Object,
    /// The light markers.
    Light,
    /// HDR tone mapping onto the surface.
    Hdr,
}

/// The shader called `name`, if there is one.
pub open spec fn shader_named(name: Seq<char>) -> Option<ShaderKind> {
    if name == "object"@ {
        Some(ShaderKind::Object)
    } else if name == "light"@ {
        Some(ShaderKind::Light)
    } else if name == "hdr"@ {
        Some(ShaderKind::Hdr)
    } else {
        None
    }
}

/// Character-wise equality of two strings.
fn same_text(a: &str, b: &str) -> (eq: bool)
    ensures
        eq == (a@ == b@),
{
    let n = a.unicode_len();
    if n != b.unicode_len() {
        return false;
    }
    let mut i: usize = 0;
    while i < n
        invariant
            n == a@.len(),
            n == b@.len(),
            i <= n,
            forall|k: int| 0 <= k < i ==> a@[k] == b@[k],
        decreases n - i,
    {
        if a.get_char(i) != b.get_char(i) {
            return false;
        }
        i = i + 1;
    }
    assert(a@ =~= b@);
    true
}

/// Which shader a name stands for; `None` for a name the renderer does not
/// know.
pub fn shader_kind(name: &str) -> (kind: Option<ShaderKind>)
    ensures
        kind == shader_named(name@),
        name@ == "object"@ ==> kind == Some(ShaderKind::Object),
        name@ == "light"@ ==> kind == Some(ShaderKind::Light),
        name@ == "hdr"@ ==> kind == Some(ShaderKind::Hdr),
        name@ != "object"@ && name@ != "light"@ && name@ != "hdr"@ ==> kind is None,
{
    proof {
        reveal_strlit("object");
        reveal_strlit("light");
        reveal_strlit("hdr");
        assert("object"@.len() == 6 && "light"@.len() == 5 && "hdr"@.len() == 3);
        assert("light"@ != "object"@ && "hdr"@ != "object"@ && "hdr"@ != "light"@);
    }
    if same_text(name, "object") {
        Some(ShaderKind::Object)
    } else if same_text(name, "light") {
        Some(ShaderKind::Light)
    } else if same_text(name, "hdr") {
        Some(ShaderKind::Hdr)
    } else {
        None
    }
}

} // verus!
