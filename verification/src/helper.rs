use vstd::prelude::*;
use crate::config::{Attachment, Pass, Renderer, Specialization, Subpass};
use crate::text::{push_char, str_eq};

verus! {

/// Whether an attachment is written as color or as depth.
#[derive(Debug, Clone, Copy, PartialEq, Eq, Structural)]
pub enum AttachmentType {
    Color,
    Depth,
}

/// The types a specialization constant can have.
pub open spec fn supported_ty(ty: Seq<char>) -> bool {
    ty == "f32"@ || ty == "i32"@ || ty == "u32"@
}

/// Rust literal of the zero value of a specialization constant's type; `None` for a type that
/// is not supported.
pub open spec fn spec_type_default(ty: Seq<char>) -> Option<Seq<char>> {
    if ty == "f32"@ {
        Some("0."@)
    } else if ty == "i32"@ || ty == "u32"@ {
        Some("0"@)
    } else {
        None
    }
}

/// Size in bytes of a specialization constant's type; `None` for a type that is not supported.
pub open spec fn spec_type_size(ty: Seq<char>) -> Option<nat> {
    if supported_ty(ty) {
        Some(4)
    } else {
        None
    }
}

/// Law: a specialization constant's type has a size exactly when it has a zero literal, and
/// every supported type is four bytes wide.
pub proof fn law_type_size_and_default_agree(ty: Seq<char>)
    ensures
        spec_type_size(ty) is Some <==> spec_type_default(ty) is Some,
        spec_type_size(ty) is Some <==> supported_ty(ty),
        spec_type_size(ty) matches Some(n) ==> n == 4,
{
}

impl Specialization {
    /// Rust literal of the zero value of the constant's type.
    pub fn type_default(&self) -> (res: &'static str)
        requires
            supported_ty(self.ty@),
        ensures
            res@ == (if self.ty@ == "f32"@ {
                "0."@
            } else {
                "0"@
            }),
            spec_type_default(self.ty@) == Some(res@),
    {
        if str_eq(self.ty.as_str(), "f32") {
            "0."
        } else {
            "0"
        }
    }

    /// Size in bytes of the constant's type.
    pub fn type_size(&self) -> (res: usize)
        requires
            supported_ty(self.ty@),
        ensures
            res == 4,
            spec_type_size(self.ty@) == Some(res as nat),
    {
        4
    }
}

impl Subpass {
    /// Number of attachments: the color attachments and the depth attachment if there is one.
    pub fn attachment_count(&self) -> (res: usize)
        requires
            self.color_attachments@.len() + (if self.depth_attachment is Some {
                1int
            } else {
                0int
            }) <= usize::MAX,
        ensures
            res == self.color_attachments@.len() + if self.depth_attachment is Some {
                1int
            } else {
                0int
            },
    {
        let color_count = self.color_attachments.len();
        let depth_count: usize = if self.depth_attachment.is_some() {
            1
        } else {
            0
        };
        color_count + depth_count
    }
}

/// Uppercase of an ASCII character; other characters are unchanged.
pub open spec fn ascii_upper(c: char) -> char {
    if 'a' <= c <= 'z' {
        ((c as u32) - 32) as char
    } else {
        c
    }
}

/// Whether `s` splits at underscores into words that are all non-empty and start with an ASCII
/// character (the words the camel-case conversion can cut its first character from).
pub open spec fn camelcase_input_ok(s: Seq<char>) -> bool {
    &&& s.len() > 0
    &&& s[0] != '_'
    &&& s[s.len() - 1] != '_'
    &&& forall|i: int| 1 <= i < s.len() && s[i - 1] == '_' ==> #[trigger] s[i] != '_'
    &&& forall|i: int|
        0 <= i < s.len() && (i == 0 || s[i - 1] == '_') ==> (#[trigger] s[i] as u32) < 128
}

/// Camel case of `s`: underscores are dropped and the first character of each word is
/// uppercased; `start` tells whether `s` begins a word.
pub open spec fn camel_from(s: Seq<char>, start: bool) -> Seq<char>
    decreases s.len(),
{
    if s.len() == 0 {
        seq![]
    } else if s[0] == '_' {
        camel_from(s.drop_first(), true)
    } else {
        seq![
            if start {
                ascii_upper(s[0])
            } else {
                s[0]
            },
        ] + camel_from(s.drop_first(), false)
    }
}

fn upper(c: char) -> (r: char)
    ensures
        r == ascii_upper(c),
{
    if 'a' <= c && c <= 'z' {
        let code = c as u32;
        let upper_code = (code - 32) as u8;
        upper_code as char
    } else {
        c
    }
}

/// Converts a snake_case name to CamelCase: the name is split at underscores and each word's
/// first character is uppercased.
pub fn to_camelcase(name: &str) -> (result: String)
    requires
        camelcase_input_ok(name@),
    ensures
        result@ == camel_from(name@, true),
{
    let n = name.unicode_len();
    let mut result = String::new();
    let mut start = true;
    let mut i: usize = 0;
    assert(name@.skip(0) =~= name@);
    while i < n
        invariant
            n == name@.len(),
            i <= n,
            start == (i == 0 || name@[i - 1] == '_'),
            result@ + camel_from(name@.skip(i as int), start) == camel_from(name@, true),
        decreases n - i,
    {
        let c = name.get_char(i);
        assert(name@.skip(i as int).drop_first() =~= name@.skip((i + 1) as int));
        if c == '_' {
            start = true;
        } else {
            let ghost before = result@;
            if start {
                push_char(&mut result, upper(c));
            } else {
                push_char(&mut result, c);
            }
            assert(result@ + camel_from(name@.skip((i + 1) as int), false) =~= before
                + camel_from(name@.skip(i as int), start));
            start = false;
        }
        i = i + 1;
    }
    assert(result@ =~= result@ + camel_from(name@.skip(n as int), start));
    result
}

/// The attachments of a subpass: its color attachments, then its depth attachment.
pub open spec fn subpass_attachments(sp: Subpass) -> Seq<(AttachmentType, Attachment)> {
    sp.color_attachments@.map_values(|a: Attachment| (AttachmentType::Color, a)) + match sp.depth_attachment {
        Some(d) => seq![(AttachmentType::Depth, d)],
        None => seq![],
    }
}

/// The attachments of all subpasses in order, each with the index of its subpass. An
/// attachment's index in the render pass is its position in this sequence.
pub open spec fn pass_attachments(subpasses: Seq<Subpass>) -> Seq<(int, AttachmentType, Attachment)>
    decreases subpasses.len(),
{
    if subpasses.len() == 0 {
        seq![]
    } else {
        let i = subpasses.len() - 1;
        pass_attachments(subpasses.drop_last()) + subpass_attachments(subpasses.last()).map_values(
            |p: (AttachmentType, Attachment)| (i, p.0, p.1),
        )
    }
}

/// Whether an attachment entry handed out by [`Pass::attachments`] is the `k`th entry `e` of
/// [`pass_attachments`].
pub open spec fn entry_ok(
    subpasses: Seq<Subpass>,
    r: (&Subpass, usize, AttachmentType, &Attachment),
    e: (int, AttachmentType, Attachment),
    k: int,
) -> bool {
    &&& r.1 == k
    &&& 0 <= e.0 < subpasses.len()
    &&& *r.0 == subpasses[e.0]
    &&& r.2 == e.1
    &&& *r.3 == e.2
}

/// Whether an entry of [`pass_attachments`] is a color attachment on the swapchain image.
pub open spec fn is_swapchain_color(e: (int, AttachmentType, Attachment)) -> bool {
    e.1 == AttachmentType::Color && e.2.swapchain
}

impl Renderer {
    /// The first specialization constant with the given name.
    pub fn find_specialization(&self, name: &str) -> (res: &Specialization)
        requires
            exists|i: int|
                0 <= i < self.specializations@.len() && #[trigger] self.specializations@[i].name@
                    == name@,
        ensures
            exists|i: int|
                0 <= i < self.specializations@.len() && self.specializations@[i] == *res
                    && res.name@ == name@ && forall|j: int|
                    0 <= j < i ==> #[trigger] self.specializations@[j].name@ != name@,
    {
        let mut i: usize = 0;
        while i < self.specializations.len()
            invariant
                i <= self.specializations@.len(),
                forall|j: int| 0 <= j < i ==> #[trigger] self.specializations@[j].name@ != name@,
                exists|k: int|
                    0 <= k < self.specializations@.len() && #[trigger] self.specializations@[k].name@
                        == name@,
            decreases self.specializations@.len() - i,
        {
            if str_eq(self.specializations[i].name.as_str(), name) {
                return &self.specializations[i];
            }
            i = i + 1;
        }
        proof {
            let k = choose|k: int|
                0 <= k < self.specializations@.len() && #[trigger] self.specializations@[k].name@
                    == name@;
            assert(self.specializations@[k].name@ != name@);
        }
        &self.specializations[0]
    }
}

impl Pass {
    /// Every attachment of the pass with its subpass, its index in the pass and its type.
    pub fn attachments(&self) -> (res: Vec<(&Subpass, usize, AttachmentType, &Attachment)>)
        ensures
            res@.len() == pass_attachments(self.subpasses@).len(),
            forall|k: int|
                0 <= k < res@.len() ==> entry_ok(
                    self.subpasses@,
                    #[trigger] res@[k],
                    pass_attachments(self.subpasses@)[k],
                    k,
                ),
    {
        let mut res: Vec<(&Subpass, usize, AttachmentType, &Attachment)> = Vec::new();
        let mut i: usize = 0;
        while i < self.subpasses.len()
            invariant
                i <= self.subpasses@.len(),
                res@.len() == pass_attachments(self.subpasses@.take(i as int)).len(),
                forall|k: int|
                    0 <= k < res@.len() ==> entry_ok(
                        self.subpasses@,
                        #[trigger] res@[k],
                        pass_attachments(self.subpasses@.take(i as int))[k],
                        k,
                    ),
            decreases self.subpasses@.len() - i,
        {
            let subpass = &self.subpasses[i];
            let ghost prev = pass_attachments(self.subpasses@.take(i as int));
            let ghost added = subpass_attachments(*subpass).map_values(
                |p: (AttachmentType, Attachment)| (i as int, p.0, p.1),
            );
            assert(self.subpasses@.take((i + 1) as int).drop_last() =~= self.subpasses@.take(
                i as int,
            ));
            assert(pass_attachments(self.subpasses@.take((i + 1) as int)) == prev + added);
            let ghost target = prev + added;
            let mut j: usize = 0;
            while j < subpass.color_attachments.len()
                invariant
                    subpass == self.subpasses@[i as int],
                    i < self.subpasses@.len(),
                    j <= subpass.color_attachments@.len(),
                    added == subpass_attachments(*subpass).map_values(
                        |p: (AttachmentType, Attachment)| (i as int, p.0, p.1),
                    ),
                    target == prev + added,
                    res@.len() == prev.len() + j,
                    forall|k: int|
                        0 <= k < res@.len() ==> entry_ok(
                            self.subpasses@,
                            #[trigger] res@[k],
                            target[k],
                            k,
                        ),
                decreases subpass.color_attachments@.len() - j,
            {
                let k = res.len();
                assert(target[k as int] == added[j as int]);
                res.push((subpass, k, AttachmentType::Color, &subpass.color_attachments[j]));
                j = j + 1;
            }
            if let Some(depth) = &subpass.depth_attachment {
                let k = res.len();
                assert(target[k as int] == added[subpass.color_attachments@.len() as int]);
                res.push((subpass, k, AttachmentType::Depth, depth));
            }
            assert(res@.len() == target.len());
            i = i + 1;
        }
        assert(self.subpasses@.take(self.subpasses@.len() as int) =~= self.subpasses@);
        res
    }

    /// Whether some subpass writes a color attachment to the swapchain image.
    pub fn writes_to_swapchain(&self) -> (res: bool)
        ensures
            res == exists|i: int, j: int|
                0 <= i < self.subpasses@.len() && 0 <= j
                    < self.subpasses@[i].color_attachments@.len()
                    && #[trigger] self.subpasses@[i].color_attachments@[j].swapchain,
    {
        let mut i: usize = 0;
        while i < self.subpasses.len()
            invariant
                i <= self.subpasses@.len(),
                forall|i2: int, j: int|
                    0 <= i2 < i && 0 <= j < self.subpasses@[i2].color_attachments@.len()
                        ==> !#[trigger] self.subpasses@[i2].color_attachments@[j].swapchain,
            decreases self.subpasses@.len() - i,
        {
            let subpass = &self.subpasses[i];
            let mut j: usize = 0;
            while j < subpass.color_attachments.len()
                invariant
                    subpass == self.subpasses@[i as int],
                    i < self.subpasses@.len(),
                    j <= subpass.color_attachments@.len(),
                    forall|i2: int, j2: int|
                        0 <= i2 < i && 0 <= j2 < self.subpasses@[i2].color_attachments@.len()
                            ==> !#[trigger] self.subpasses@[i2].color_attachments@[j2].swapchain,
                    forall|j2: int|
                        0 <= j2 < j ==> !#[trigger] subpass.color_attachments@[j2].swapchain,
                decreases subpass.color_attachments@.len() - j,
            {
                if subpass.color_attachments[j].swapchain {
                    return true;
                }
                j = j + 1;
            }
            i = i + 1;
        }
        false
    }

    /// Index of the first subpass with the given name.
    pub fn subpass_index(&self, name: &str) -> (res: usize)
        requires
            exists|i: int| 0 <= i < self.subpasses@.len() && #[trigger] self.subpasses@[i].name@ == name@,
        ensures
            res < self.subpasses@.len(),
            self.subpasses@[res as int].name@ == name@,
            forall|j: int| 0 <= j < res ==> #[trigger] self.subpasses@[j].name@ != name@,
    {
        let mut i: usize = 0;
        while i < self.subpasses.len()
            invariant
                i <= self.subpasses@.len(),
                forall|j: int| 0 <= j < i ==> #[trigger] self.subpasses@[j].name@ != name@,
                exists|k: int| 0 <= k < self.subpasses@.len() && #[trigger] self.subpasses@[k].name@ == name@,
            decreases self.subpasses@.len() - i,
        {
            if str_eq(self.subpasses[i].name.as_str(), name) {
                return i;
            }
            i = i + 1;
        }
        proof {
            let k = choose|k: int| 0 <= k < self.subpasses@.len() && #[trigger] self.subpasses@[k].name@ == name@;
            assert(self.subpasses@[k].name@ != name@);
        }
        0
    }

    /// Index in the pass of the first color attachment written to the swapchain image.
    pub fn swapchain_attachment_index(&self) -> (res: usize)
        requires
            exists|k: int|
                0 <= k < pass_attachments(self.subpasses@).len() && #[trigger] is_swapchain_color(
                    pass_attachments(self.subpasses@)[k],
                ),
        ensures
            res < pass_attachments(self.subpasses@).len(),
            is_swapchain_color(pass_attachments(self.subpasses@)[res as int]),
            forall|k: int|
                0 <= k < res ==> !#[trigger] is_swapchain_color(pass_attachments(self.subpasses@)[k]),
    {
        let all = self.attachments();
        let ghost spec_all = pass_attachments(self.subpasses@);
        let mut k: usize = 0;
        while k < all.len()
            invariant
                spec_all == pass_attachments(self.subpasses@),
                all@.len() == spec_all.len(),
                forall|m: int|
                    0 <= m < all@.len() ==> entry_ok(
                        self.subpasses@,
                        #[trigger] all@[m],
                        spec_all[m],
                        m,
                    ),
                k <= all@.len(),
                forall|m: int| 0 <= m < k ==> !#[trigger] is_swapchain_color(spec_all[m]),
                exists|m: int| 0 <= m < spec_all.len() && #[trigger] is_swapchain_color(spec_all[m]),
            decreases all@.len() - k,
        {
            let entry = &all[k];
            assert(*entry == all@[k as int]);
            if entry.2 == AttachmentType::Color && entry.3.swapchain {
                return k;
            }
            k = k + 1;
        }
        proof {
            let m = choose|m: int| 0 <= m < spec_all.len() && #[trigger] is_swapchain_color(spec_all[m]);
            assert(!is_swapchain_color(spec_all[m]));
        }
        0
    }

    /// Whether some subpass reads the attachment as an input attachment.
    pub fn used_as_input(&self, attachment: &Attachment) -> (res: bool)
        ensures
            res == exists|i: int, j: int|
                0 <= i < self.subpasses@.len() && 0 <= j < self.subpasses@[i].input_attachment@.len()
                    && #[trigger] self.subpasses@[i].input_attachment@[j]@ == attachment.name@,
    {
        let mut i: usize = 0;
        while i < self.subpasses.len()
            invariant
                i <= self.subpasses@.len(),
                forall|i2: int, j: int|
                    0 <= i2 < i && 0 <= j < self.subpasses@[i2].input_attachment@.len()
                        ==> #[trigger] self.subpasses@[i2].input_attachment@[j]@ != attachment.name@,
            decreases self.subpasses@.len() - i,
        {
            let subpass = &self.subpasses[i];
            let mut j: usize = 0;
            while j < subpass.input_attachment.len()
                invariant
                    subpass == self.subpasses@[i as int],
                    i < self.subpasses@.len(),
                    j <= subpass.input_attachment@.len(),
                    forall|i2: int, j2: int|
                        0 <= i2 < i && 0 <= j2 < self.subpasses@[i2].input_attachment@.len()
                            ==> #[trigger] self.subpasses@[i2].input_attachment@[j2]@
                            != attachment.name@,
                    forall|j2: int|
                        0 <= j2 < j ==> #[trigger] subpass.input_attachment@[j2]@ != attachment.name@,
                decreases subpass.input_attachment@.len() - j,
            {
                if str_eq(subpass.input_attachment[j].as_str(), attachment.name.as_str()) {
                    return true;
                }
                j = j + 1;
            }
            i = i + 1;
        }
        false
    }
}

} // verus!
