//! A verified DNS-over-UDP packet reflector.
//!
//! The library inspects link-layer frames on a receive path, identifies
//! IPv4/UDP traffic bound for the DNS port, decodes the DNS header for
//! diagnostics, consults two block-list tables, and reflects a matched
//! frame back to its sender by swapping the source/destination MAC
//! addresses, IPv4 addresses, and UDP ports in place.
//!
//! Every byte access goes through the bounds-checked accessor of
//! [`frame::RawFrame`]; the decision engine in [`pipeline`] never reads
//! or writes outside the frame's extent, for any input.

use vstd::prelude::*;
use vstd::string::StringSliceAdditionalSpecFns;

pub mod blocklist;
pub mod dns;
pub mod frame;
pub mod headers;
pub mod pipeline;

verus! {

/// Run configuration consumed by the surrounding program: which network
/// interface the pipeline is attached to, and how the attachment is built.
pub struct Options {
    /// Target triple the packet program is built for.
    pub bpf_target: String,
    /// Build with optimizations.
    pub release: bool,
    /// Name of the network interface to attach to.
    pub intf: String,
    /// Container image the program is run in.
    pub image: String,
}

impl Default for Options {
    /// The default configuration selects the interface `eth0`, an
    /// unoptimized build for the little-endian BPF target, and the
    /// stock container image.
    fn default() -> (r: Self)
        ensures
            r.bpf_target@ == "bpfel-unknown-none"@,
            r.release == false,
            r.intf@ == "eth0"@,
            r.image@ == "archlinux"@,
    {
        proof {
            reveal_strlit("bpfel-unknown-none");
            reveal_strlit("eth0");
            reveal_strlit("archlinux");
        }
        Options {
            bpf_target: "bpfel-unknown-none".to_string(),
            release: false,
            intf: "eth0".to_string(),
            image: "archlinux".to_string(),
        }
    }
}

/// The byte value of the path separator `/`.
pub const PATH_SEP: u8 = 47;

/// The byte value of the current-directory component `.`.
pub const PATH_DOT: u8 = 46;

/// The end of `bytes[..e]` once every trailing separator, and every
/// trailing lone `.` component that follows a separator, is dropped.
/// This is the normalization a path library applies to the tail of a
/// path before naming its last component.
pub open spec fn norm_end(bytes: Seq<u8>, e: int) -> int
    decreases e,
{
    if e > 0 && bytes[e - 1] == PATH_SEP {
        norm_end(bytes, e - 1)
    } else if e >= 2 && bytes[e - 1] == PATH_DOT && bytes[e - 2] == PATH_SEP {
        norm_end(bytes, e - 1)
    } else {
        e
    }
}

/// The start of the component that ends at `e`: the position after
/// the nearest separator below `e`.
pub open spec fn comp_start(bytes: Seq<u8>, c: int) -> int
    decreases c,
{
    if c > 0 && bytes[c - 1] != PATH_SEP {
        comp_start(bytes, c - 1)
    } else {
        c
    }
}

/// Where the parent of the path `bytes` ends, or a negative value
/// when the path has no parent. The tail is normalized, the last
/// component is dropped together with the separators before it; an
/// absolute path whose components are thereby exhausted has the root
/// `/` as parent, and only the empty path and a bare root have none.
pub open spec fn parent_end(bytes: Seq<u8>) -> int {
    let e = norm_end(bytes, bytes.len() as int);
    if e == 0 {
        -1
    } else {
        let c = comp_start(bytes, e);
        if c == 0 {
            0
        } else {
            let p = norm_end(bytes, c);
            if p == 0 {
                1
            } else {
                p
            }
        }
    }
}

/// The root of the project tree that a package manifest lives in: the
/// manifest directory's path without its final component, exactly as
/// a filesystem path library computes a parent. A lone component
/// yields the empty path; a component directly under the root yields
/// the root itself. `None` exactly when the path has no parent (the
/// empty path or a bare root), where the surrounding program treats
/// the configuration as fatal.
pub fn project_root(manifest_dir: &str) -> (r: Option<String>)
    ensures
        (r is None) <==> parent_end(manifest_dir.spec_bytes()) < 0,
        r matches Some(q) ==> vstd::utf8::encode_utf8(q@) == manifest_dir.spec_bytes().subrange(
            0,
            parent_end(manifest_dir.spec_bytes()),
        ),
{
    let ghost sb = manifest_dir.spec_bytes();
    let bytes = manifest_dir.as_bytes();
    let n = bytes.len();
    // normalize the tail: drop trailing separators and `.` components
    let mut e: usize = n;
    while e > 0 && (bytes[e - 1] == PATH_SEP || (e >= 2 && bytes[e - 1] == PATH_DOT && bytes[e
        - 2] == PATH_SEP))
        invariant
            e <= n,
            n == sb.len(),
            bytes@ == sb,
            norm_end(sb, n as int) == norm_end(sb, e as int),
        decreases e,
    {
        e = e - 1;
    }
    proof {
        assert(norm_end(sb, n as int) == e as int);
    }
    if e == 0 {
        return None;
    }
    // find the start of the last component
    let mut c: usize = e;
    while c > 0 && bytes[c - 1] != PATH_SEP
        invariant
            c <= e <= n,
            n == sb.len(),
            bytes@ == sb,
            comp_start(sb, e as int) == comp_start(sb, c as int),
        decreases c,
    {
        c = c - 1;
    }
    proof {
        assert(comp_start(sb, e as int) == c as int);
    }
    if c == 0 {
        // a single relative component: its parent is the empty path
        let parent = String::new();
        proof {
            assert(vstd::utf8::encode_utf8(parent@) =~= sb.subrange(0, 0));
        }
        return Some(parent);
    }
    // drop the separators (and `.` components) before the component
    let mut p: usize = c;
    while p > 0 && (bytes[p - 1] == PATH_SEP || (p >= 2 && bytes[p - 1] == PATH_DOT && bytes[p
        - 2] == PATH_SEP))
        invariant
            p <= c,
            c <= n,
            n == sb.len(),
            bytes@ == sb,
            norm_end(sb, c as int) == norm_end(sb, p as int),
            p == c || sb[p as int] == PATH_SEP || (p >= 1 && sb[p as int] == PATH_DOT),
        decreases p,
    {
        p = p - 1;
    }
    proof {
        assert(norm_end(sb, c as int) == p as int);
    }
    if p > 0 {
        // the prefix before the component is the parent
        proof {
            broadcast use vstd::utf8::encode_utf8_valid_utf8;

            vstd::utf8::is_char_boundary_iff_not_is_continuation_byte(sb, p as int);
            assert(!vstd::utf8::is_continuation_byte(sb[p as int]));
        }
        let (prefix, _) = manifest_dir.split_at(p);
        proof {
            assert(vstd::utf8::encode_utf8(prefix@) == prefix.spec_bytes());
            assert(prefix.spec_bytes() == sb.subrange(0, p as int));
        }
        Some(prefix.to_owned())
    } else {
        // every component is gone: the path is absolute and its
        // parent is the root
        let root = "/";
        proof {
            reveal_strlit("/");
            assert(sb[0] == PATH_SEP);
            assert(vstd::utf8::is_ascii_chars(root@));
            vstd::utf8::is_ascii_chars_encode_utf8(root@);
            assert(vstd::utf8::encode_utf8(root@) =~= sb.subrange(0, 1));
        }
        Some(root.to_owned())
    }
}

} // verus!
