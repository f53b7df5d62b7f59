//! The formatter: one rule per displayable field, each a pure function of
//! the entry's metadata, the injected lookup tables, and the caller's
//! column-width hints.

use crate::align::pad_gap;
use crate::align::pad_left_justify;
use crate::align::pad_right_justify;
use crate::align::spaces;
use crate::calendar::calendar_text;
use crate::calendar::render_calendar;
use crate::calendar::MAX_CALENDAR_SECS;
use crate::classify::classify_recency;
use crate::classify::classify_size;
use crate::classify::spec_recency;
use crate::classify::spec_size_bucket;
use crate::classify::Recency;
use crate::classify::SizeBucket;
use crate::meta::Meta;
use crate::meta::NodeType;
use crate::perm::encode_permissions;
use crate::perm::spec_permissions;
use crate::style::ColorTheme;
use crate::style::PrecomputedElems;
use crate::style::Style;
use vstd::prelude::*;
use vstd::string::StrSliceExecFns;
use vstd::string::StringExecFns;

verus! {

/// Why a date field could not be rendered. The failure is local to the
/// field: the caller substitutes a placeholder and renders the rest of the
/// row.
#[derive(Clone, Copy, PartialEq, Eq, Structural, Debug)]
pub enum DateError {
    /// The platform could not supply a modification time.
    MetadataUnavailable,
    /// The modification time predates the epoch, or lies beyond the last
    /// second the calendar layout can carry in a fixed width.
    TimestampOutOfRange,
}

/// The name as displayed: directories carry a trailing path separator.
pub open spec fn spec_display_name(name: Seq<char>, t: NodeType) -> Seq<char> {
    if t is Directory {
        name + "/"@
    } else {
        name
    }
}

/// The style of the name field: the directory style for directories, the
/// unrecognized-file style for everything else.
pub open spec fn spec_name_style(theme: ColorTheme, t: NodeType) -> Style {
    if t is Directory {
        theme.dir
    } else {
        theme.unrecognized_file
    }
}

/// The whole name field: the icon, two spaces, the displayed name, wrapped
/// in the name style.
pub open spec fn spec_name_line(
    theme: ColorTheme,
    icon: Seq<char>,
    name: Seq<char>,
    t: NodeType,
) -> Seq<char> {
    spec_name_style(theme, t).spec_paint(icon + "  "@ + spec_display_name(name, t))
}

/// The symlink annotation: empty unless the entry is a symbolic link; for a
/// link, the arrow and the target, the target wrapped once more in the same
/// link style.
pub open spec fn spec_symlink_annotation(theme: ColorTheme, t: NodeType) -> Seq<char> {
    match t {
        NodeType::SymLink(target) => theme.link.spec_paint(
            " ⇒ "@ + theme.link.spec_paint(target@),
        ),
        _ => Seq::<char>::empty(),
    }
}

/// The style of a recency bucket.
pub open spec fn spec_recency_style(theme: ColorTheme, r: Recency) -> Style {
    match r {
        Recency::HourOld => theme.hour_old,
        Recency::DayOld => theme.day_old,
        Recency::Older => theme.older,
    }
}

/// The style of a magnitude bucket.
pub open spec fn spec_size_style(theme: ColorTheme, b: SizeBucket) -> Style {
    match b {
        SizeBucket::FileSmall => theme.file_small,
        SizeBucket::FileMedium => theme.file_medium,
        SizeBucket::FileLarge => theme.file_large,
    }
}

/// A user or group column: a name exactly at the column width is wrapped
/// bare in the given style; a shorter one is left-justified, unstyled, so
/// the padding never carries escapes; a longer one comes back unpadded.
pub open spec fn spec_padded_name(style: Style, name: Seq<char>, width: nat) -> Seq<char> {
    if name.len() == width {
        style.spec_paint(name)
    } else {
        name + spaces(pad_gap(name.len(), width))
    }
}

/// The unstyled size cell: the value right-justified in its column, one
/// separating space, the unit left-justified in its column.
pub open spec fn spec_size_cell(
    value: Seq<char>,
    unit: Seq<char>,
    max_value_width: nat,
    max_unit_width: nat,
) -> Seq<char> {
    spaces(pad_gap(value.len(), max_value_width)) + value + " "@ + unit + spaces(
        pad_gap(unit.len(), max_unit_width),
    )
}

/// The whole size field: the cell wrapped in the style of the entry's
/// magnitude bucket, so the padding inherits the bucket's colour.
pub open spec fn spec_size_line(
    theme: ColorTheme,
    byte_length: u64,
    value: Seq<char>,
    unit: Seq<char>,
    max_value_width: nat,
    max_unit_width: nat,
) -> Seq<char> {
    spec_size_style(theme, spec_size_bucket(byte_length)).spec_paint(
        spec_size_cell(value, unit, max_value_width, max_unit_width),
    )
}

/// The formatter. It holds no state: every rule is a pure function of the
/// metadata record, the injected tables, and the width hints.
pub struct Formatter {}

impl Formatter {
    /// Create a formatter.
    pub fn new() -> Formatter {
        Formatter {}
    }

    /// Render the name field: icon, two spaces, then the name, with a
    /// trailing separator for directories, all wrapped in the directory or
    /// unrecognized-file style.
    pub fn format_name(&self, meta: &Meta, icon_glyph: &str, theme: &ColorTheme) -> (r: String)
        ensures
            r@ == spec_name_line(*theme, icon_glyph@, meta.name@, meta.node_type),
    {
        let is_dir = match &meta.node_type {
            NodeType::Directory => true,
            _ => false,
        };
        let mut body = icon_glyph.to_owned();
        body.append("  ");
        body.append(meta.name.as_str());
        if is_dir {
            body.append("/");
        }
        proof {
            assert(body@ =~= icon_glyph@ + "  "@ + spec_display_name(meta.name@, meta.node_type));
        }
        if is_dir {
            theme.dir.paint(body.as_str())
        } else {
            theme.unrecognized_file.paint(body.as_str())
        }
    }

    /// Render the symlink annotation: the empty string for files and
    /// directories, the styled arrow and target for a symbolic link.
    pub fn format_symlink(&self, meta: &Meta, theme: &ColorTheme) -> (r: String)
        ensures
            r@ == spec_symlink_annotation(*theme, meta.node_type),
    {
        match &meta.node_type {
            NodeType::SymLink(target) => {
                let inner = theme.link.paint(target.as_str());
                let mut body = " ⇒ ".to_owned();
                body.append(inner.as_str());
                proof {
                    assert(body@ =~= " ⇒ "@ + theme.link.spec_paint(target@));
                }
                theme.link.paint(body.as_str())
            },
            _ => String::new(),
        }
    }

    /// Render the date field: the modification time's calendar string,
    /// wrapped in the style of its recency bucket against the clock reading
    /// `now`. A missing or unrenderable modification time yields an error
    /// for this field alone.
    pub fn format_date(&self, meta: &Meta, now: i64, theme: &ColorTheme) -> (r: Result<
        String,
        DateError,
    >)
        ensures
            match meta.modified_secs {
                None => r == Err::<String, DateError>(DateError::MetadataUnavailable),
                Some(t) => if 0 <= t <= MAX_CALENDAR_SECS {
                    r matches Ok(s) && s@ == spec_recency_style(
                        *theme,
                        spec_recency(t as int, now as int),
                    ).spec_paint(calendar_text(t))
                } else {
                    r == Err::<String, DateError>(DateError::TimestampOutOfRange)
                },
            },
    {
        match meta.modified_secs {
            None => Err(DateError::MetadataUnavailable),
            Some(t) => {
                if t < 0 || t > MAX_CALENDAR_SECS {
                    Err(DateError::TimestampOutOfRange)
                } else {
                    let recency = classify_recency(t, now);
                    let cal = render_calendar(t);
                    let styled = match recency {
                        Recency::HourOld => theme.hour_old.paint(cal.as_str()),
                        Recency::DayOld => theme.day_old.paint(cal.as_str()),
                        Recency::Older => theme.older.paint(cal.as_str()),
                    };
                    Ok(styled)
                }
            },
        }
    }

    /// Render the permission column: the type glyph, then the owner, group
    /// and other read-write-execute tokens, each subject tested with its own
    /// canonical masks.
    pub fn format_permissions(&self, meta: &Meta, elems: &PrecomputedElems) -> (r: String)
        ensures
            r@ == spec_permissions(*elems, meta.node_type, meta.mode),
    {
        encode_permissions(elems, &meta.node_type, meta.mode)
    }

    /// Render the user column: styled bare at exact width, left-justified
    /// and unstyled otherwise.
    pub fn format_user(&self, user_name: &str, max_user_size: usize, theme: &ColorTheme) -> (r:
        String)
        ensures
            r@ == spec_padded_name(theme.user, user_name@, max_user_size as nat),
    {
        let len = user_name.unicode_len();
        if len == max_user_size {
            theme.user.paint(user_name)
        } else {
            pad_left_justify(user_name, max_user_size)
        }
    }

    /// Render the group column: styled bare at exact width, left-justified
    /// and unstyled otherwise.
    pub fn format_group(&self, group_name: &str, max_group_size: usize, theme: &ColorTheme) -> (r:
        String)
        ensures
            r@ == spec_padded_name(theme.group, group_name@, max_group_size as nat),
    {
        let len = group_name.unicode_len();
        if len == max_group_size {
            theme.group.paint(group_name)
        } else {
            pad_left_justify(group_name, max_group_size)
        }
    }

    /// Render the size field: the value right-justified, a space, the unit
    /// left-justified, the whole cell wrapped in the style of the entry's
    /// magnitude bucket.
    pub fn format_size(
        &self,
        meta: &Meta,
        max_value_length: usize,
        max_unit_size: usize,
        theme: &ColorTheme,
    ) -> (r: String)
        ensures
            r@ == spec_size_line(
                *theme,
                meta.byte_length,
                meta.size_value@,
                meta.size_unit@,
                max_value_length as nat,
                max_unit_size as nat,
            ),
    {
        let mut cell = pad_right_justify(meta.size_value.as_str(), max_value_length);
        cell.append(" ");
        let unit_padded = pad_left_justify(meta.size_unit.as_str(), max_unit_size);
        cell.append(unit_padded.as_str());
        proof {
            assert(cell@ =~= spec_size_cell(
                meta.size_value@,
                meta.size_unit@,
                max_value_length as nat,
                max_unit_size as nat,
            ));
        }
        match classify_size(meta.byte_length) {
            SizeBucket::FileSmall => theme.file_small.paint(cell.as_str()),
            SizeBucket::FileMedium => theme.file_medium.paint(cell.as_str()),
            SizeBucket::FileLarge => theme.file_large.paint(cell.as_str()),
        }
    }
}

/// Law: the symlink annotation is empty for files and directories; for a
/// symbolic link it holds the arrow just after the style's opening escape
/// and the exact target text just after the inner opening escape.
pub proof fn lemma_symlink_annotation(theme: ColorTheme, t: NodeType)
    ensures
        !(t is SymLink) ==> spec_symlink_annotation(theme, t) == Seq::<char>::empty(),
        t matches NodeType::SymLink(target) ==> {
            let p = theme.link.prefix@.len() as int;
            let s = spec_symlink_annotation(theme, t);
            &&& s.len() == 2 * p + 3 + target@.len() + 2 * theme.link.suffix@.len()
            &&& s.subrange(p, p + 3) == " ⇒ "@
            &&& s.subrange(2 * p + 3, 2 * p + 3 + target@.len() as int) == target@
            &&& theme.link.prefix@.len() == 0 && theme.link.suffix@.len() == 0 ==> s == " ⇒ "@
                + target@
        },
{
    reveal_strlit(" ⇒ ");
    match t {
        NodeType::SymLink(target) => {
            let p = theme.link.prefix@.len() as int;
            let s = spec_symlink_annotation(theme, t);
            assert(s.subrange(p, p + 3) =~= " ⇒ "@);
            assert(s.subrange(2 * p + 3, 2 * p + 3 + target@.len() as int) =~= target@);
            if theme.link.prefix@.len() == 0 && theme.link.suffix@.len() == 0 {
                assert(s =~= " ⇒ "@ + target@);
            }
        },
        _ => {},
    }
}

} // verus!
