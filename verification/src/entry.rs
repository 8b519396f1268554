//! The per-entry pipeline and the listing decisions: which entries are
//! shown, which paths are expanded, and the exact line printed for each
//! surviving entry.

use vstd::prelude::*;

use crate::digits::{dec_digits, u64_to_dec};
use crate::format::{
    format_mode, format_size, format_time, format_type_glyph, pad_left, pad_left_str, pad_right,
    pad_right_str, perm_chars, size_display, time_display, type_glyph,
};
use crate::meta::{time_in_range, Config, EntryKind, EntryMeta, LsError, TimeParts};
use crate::names::{display_name, display_name_spec, is_hidden, is_hidden_name};
use crate::sys::{local_time_parts, resolve_group, resolve_user};

verus! {

/// The trailing marker of a listed name: `/` after a directory, nothing
/// otherwise.
pub open spec fn suffix_chars(kind: EntryKind) -> Seq<char> {
    if kind == EntryKind::Directory {
        seq!['/']
    } else {
        Seq::empty()
    }
}

/// The symlink annotation: ` -> target` when a target is shown.
pub open spec fn arrow_chars(target: Option<Seq<char>>) -> Seq<char> {
    match target {
        Some(t) => " -> "@ + t,
        None => Seq::empty(),
    }
}

/// The short-format line: the display name with its directory marker.
pub open spec fn short_line_chars(name: Seq<char>, kind: EntryKind) -> Seq<char> {
    name + suffix_chars(kind)
}

/// The long-format line for one entry, in field order: type glyph, then —
/// on POSIX metadata — permissions, link count, owner and group, then the
/// right-aligned size, the modification time, the name with its directory
/// marker, and the symlink target annotation.
pub open spec fn long_line_chars(
    m: EntryMeta,
    exact: bool,
    t: TimeParts,
    user: Seq<char>,
    group: Seq<char>,
    name: Seq<char>,
    target: Option<Seq<char>>,
) -> Seq<char> {
    let head = match m.posix {
        Some(p) => seq![type_glyph(m.kind)] + perm_chars(p.mode) + seq![' '] + dec_digits(
            p.nlink as nat,
        ) + seq![' '] + pad_right(user, 8) + seq![' '] + pad_right(group, 8),
        None => seq![type_glyph(m.kind)],
    };
    head + seq![' '] + pad_left(size_display(m.size, exact), 10) + seq![' '] + time_display(t)
        + seq![' '] + name + suffix_chars(m.kind) + arrow_chars(target)
}

/// Renders the trailing directory marker.
pub fn suffix_str(kind: EntryKind) -> (r: &'static str)
    ensures
        r@ == suffix_chars(kind),
{
    proof {
        reveal_strlit("/");
        reveal_strlit("");
    }
    let r: &'static str = if matches!(kind, EntryKind::Directory) {
        "/"
    } else {
        ""
    };
    proof {
        assert(r@ =~= suffix_chars(kind));
    }
    r
}

/// Renders the long-format line from fully resolved fields.
pub fn render_long_line(
    m: &EntryMeta,
    exact: bool,
    t: &TimeParts,
    user: &str,
    group: &str,
    name: &str,
    target: Option<&String>,
) -> (r: String)
    requires
        t.wf(),
    ensures
        r@ == long_line_chars(
            *m,
            exact,
            *t,
            user@,
            group@,
            name@,
            match target {
                Some(s) => Some(s@),
                None => None,
            },
        ),
{
    proof {
        reveal_strlit(" ");
        reveal_strlit(" -> ");
    }
    let mut line = String::from_str(format_type_glyph(m.kind));
    match &m.posix {
        Some(p) => {
            let mode = format_mode(p.mode);
            line.append(mode.as_str());
            line.append(" ");
            let nlink = u64_to_dec(p.nlink);
            line.append(nlink.as_str());
            line.append(" ");
            let user_col = pad_right_str(String::from_str(user), 8);
            line.append(user_col.as_str());
            line.append(" ");
            let group_col = pad_right_str(String::from_str(group), 8);
            line.append(group_col.as_str());
        },
        None => {},
    }
    line.append(" ");
    let size_col = pad_left_str(format_size(m.size, exact), 10);
    line.append(size_col.as_str());
    line.append(" ");
    let time_col = format_time(t);
    line.append(time_col.as_str());
    line.append(" ");
    line.append(name);
    line.append(suffix_str(m.kind));
    match target {
        Some(s) => {
            line.append(" -> ");
            line.append(s.as_str());
        },
        None => {},
    }
    proof {
        assert(line@ =~= long_line_chars(
            *m,
            exact,
            *t,
            user@,
            group@,
            name@,
            match target {
                Some(s) => Some(s@),
                None => None,
            },
        ));
    }
    line
}

/// The symlink target shown for an entry: only a symlink shows one.
pub open spec fn target_view(kind: EntryKind, link_target: Option<&String>) -> Option<Seq<char>> {
    if kind == EntryKind::Symlink {
        match link_target {
            Some(s) => Some(s@),
            None => None,
        }
    } else {
        None
    }
}

/// Whether an entry is suppressed by the hidden-entry rule under this
/// configuration.
pub open spec fn entry_filtered(cfg: Config, path: Seq<char>) -> bool {
    !cfg.all && is_hidden_name(display_name_spec(path))
}

/// The per-entry routine: resolves the display name, applies the hidden
/// filter, and renders the line the entry produces, if any.
///
/// The caller hands in the non-following metadata snapshot (`None` when
/// the path could not be stat'd) and, for a symlink, its immediate target
/// (`None` when reading the link failed).  A missing snapshot is the fatal
/// `NotAccessible` condition; a hidden entry is skipped silently; in short
/// format the line is the name with its directory marker; in long format
/// the full field line is produced, where the owner and group columns and
/// the local-time fields come from the host and are therefore only known
/// to be some well-formed resolution.
pub fn file_entry_line(
    cfg: &Config,
    path: &str,
    meta: Option<&EntryMeta>,
    link_target: Option<&String>,
) -> (r: Result<Option<String>, LsError>)
    requires
        meta matches Some(m) ==> (cfg.long ==> time_in_range(m.modified)),
    ensures
        meta is None ==> (r matches Err(LsError::NotAccessible(n)) && n@ == display_name_spec(
            path@,
        )),
        meta matches Some(m) ==> (entry_filtered(*cfg, path@) ==> (r matches Ok(l)
            && l is None)),
        meta matches Some(m) ==> ((!entry_filtered(*cfg, path@) && !cfg.long) ==> (r matches Ok(
            l,
        ) && l matches Some(line) && line@ == short_line_chars(
            display_name_spec(path@),
            m.kind,
        ))),
        meta matches Some(m) ==> ((!entry_filtered(*cfg, path@) && cfg.long && m.kind
            == EntryKind::Symlink && link_target is None) ==> (r matches Err(
            LsError::LinkUnreadable(n),
        ) && n@ == display_name_spec(path@))),
        meta matches Some(m) ==> ((!entry_filtered(*cfg, path@) && cfg.long && (m.kind
            == EntryKind::Symlink ==> link_target is Some)) ==> (r matches Ok(l)
            && l matches Some(line) && exists|t: TimeParts, user: Seq<char>, group: Seq<char>|
            t.wf() && line@ == #[trigger] long_line_chars(
                *m,
                cfg.not_human_readable,
                t,
                user,
                group,
                display_name_spec(path@),
                target_view(m.kind, link_target),
            ))),
{
    let name = display_name(path);
    let m = match meta {
        None => {
            return Err(LsError::NotAccessible(name));
        },
        Some(m) => m,
    };
    if !cfg.all && is_hidden(name.as_str()) {
        return Ok(None);
    }
    if !cfg.long {
        let line = name.concat(suffix_str(m.kind));
        return Ok(Some(line));
    }
    let target: Option<&String> = if matches!(m.kind, EntryKind::Symlink) {
        match link_target {
            Some(s) => Some(s),
            None => {
                return Err(LsError::LinkUnreadable(name));
            },
        }
    } else {
        None
    };
    let t = match local_time_parts(m.modified) {
        Some(t) => t,
        None => vstd::pervasive::unreached(),
    };
    let (user, group) = match &m.posix {
        Some(p) => (resolve_user(p.uid), resolve_group(p.gid)),
        None => (String::new(), String::new()),
    };
    let line = render_long_line(
        m,
        cfg.not_human_readable,
        &t,
        user.as_str(),
        group.as_str(),
        name.as_str(),
        target,
    );
    proof {
        assert(line@ == long_line_chars(
            *m,
            cfg.not_human_readable,
            t,
            user@,
            group@,
            display_name_spec(path@),
            target_view(m.kind, link_target),
        ));
    }
    Ok(Some(line))
}

/// Whether a listed path is expanded into its children: it is a directory
/// and directory-only mode is off.
pub fn should_expand(cfg: &Config, is_dir: bool) -> (r: bool)
    ensures
        r == (is_dir && !cfg.directory),
{
    is_dir && !cfg.directory
}

/// The header printed above an expanded directory's children.
pub fn header_line(path: &str) -> (r: String)
    ensures
        r@ == path@ + ":"@,
{
    String::from_str(path).concat(":")
}

/// Two renderings of the same entry from the same resolved fields are the
/// same line: the formatting layer holds no hidden state.
pub proof fn lemma_rendering_deterministic(
    m: EntryMeta,
    exact: bool,
    t: TimeParts,
    user: Seq<char>,
    group: Seq<char>,
    name: Seq<char>,
    target: Option<Seq<char>>,
    line1: Seq<char>,
    line2: Seq<char>,
)
    requires
        line1 == long_line_chars(m, exact, t, user, group, name, target),
        line2 == long_line_chars(m, exact, t, user, group, name, target),
    ensures
        line1 == line2,
{
}

} // verus!
