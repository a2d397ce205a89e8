//! The four validated identifier types, one per kind of path segment, and
//! the validity rules each enforces. An identifier is an immutable string
//! wrapper whose value is pinned by its view; its constructor accepts
//! exactly the strings its rule admits and reports the first rule violated.
use vstd::prelude::*;

use crate::error::Error;
use crate::error::ErrorKind;
use crate::text::byte_len;
use crate::text::contains_seq;
use crate::text::contains_str;
use crate::text::lemma_byte_len_zero;
use crate::text::slash_free;
use crate::text::str_byte_len;
use crate::text::str_eq;

verus! {

/// A lowercase ASCII letter.
pub open spec fn is_lower_char(c: char) -> bool {
    97 <= c as u32 <= 122
}

/// An ASCII digit.
pub open spec fn is_digit_char(c: char) -> bool {
    48 <= c as u32 <= 57
}

/// The character class shared by project and database identifiers:
/// lowercase letters, digits, and the hyphen.
pub open spec fn is_project_char(c: char) -> bool {
    is_lower_char(c) || is_digit_char(c) || c as u32 == 45
}

/// The segment both starts and ends with a double underscore.
pub open spec fn reserved_seg(s: Seq<char>) -> bool {
    s.len() >= 2 && s[0] == '_' && s[1] == '_' && s[s.len() - 1] == '_' && s[s.len() - 2] == '_'
}

/// The rule shared by collection and document identifiers: one to 1500
/// bytes, no slash, not a single or double period, not a reserved
/// double-underscore name.
pub open spec fn seg_ok(s: Seq<char>) -> bool {
    &&& 1 <= byte_len(s) <= 1500
    &&& slash_free(s)
    &&& s != seq!['.']
    &&& s != seq!['.', '.']
    &&& !reserved_seg(s)
}

/// The first rule of `seg_ok` that `s` violates, in the order the rules
/// are checked.
pub open spec fn seg_err(s: Seq<char>) -> ErrorKind
    recommends
        !seg_ok(s),
{
    if !(1 <= byte_len(s) <= 1500) {
        ErrorKind::LengthOutOfBounds
    } else if !slash_free(s) {
        ErrorKind::ContainsSlash
    } else if s == seq!['.'] || s == seq!['.', '.'] {
        ErrorKind::SinglePeriodOrDoublePeriods
    } else {
        ErrorKind::MatchesReservedIdPattern
    }
}

/// Every segment satisfies the shared identifier rule.
pub open spec fn segs_ok(segs: Seq<Seq<char>>) -> bool {
    forall|i: int| 0 <= i < segs.len() ==> seg_ok(#[trigger] segs[i])
}

/// The index of the first segment violating the shared identifier rule.
pub open spec fn first_bad_seg(segs: Seq<Seq<char>>) -> int
    decreases segs.len(),
{
    if segs.len() == 0 {
        0
    } else if !seg_ok(segs[0]) {
        0
    } else {
        1 + first_bad_seg(segs.drop_first())
    }
}

/// The failure reported for the leftmost invalid segment.
pub open spec fn segs_err(segs: Seq<Seq<char>>) -> ErrorKind
    recommends
        !segs_ok(segs),
{
    seg_err(segs[first_bad_seg(segs)])
}

/// When some segment is invalid, `first_bad_seg` names the leftmost one.
pub proof fn lemma_first_bad_seg_props(segs: Seq<Seq<char>>)
    requires
        !segs_ok(segs),
    ensures
        0 <= first_bad_seg(segs) < segs.len(),
        !seg_ok(segs[first_bad_seg(segs)]),
        forall|j: int| 0 <= j < first_bad_seg(segs) ==> seg_ok(#[trigger] segs[j]),
    decreases segs.len(),
{
    let w = choose|i: int| 0 <= i < segs.len() && !seg_ok(#[trigger] segs[i]);
    if !seg_ok(segs[0]) {
    } else {
        let rest = segs.drop_first();
        assert(rest[w - 1] == segs[w]);
        assert(!segs_ok(rest));
        lemma_first_bad_seg_props(rest);
        let k = first_bad_seg(rest);
        assert(segs[k + 1] == rest[k]);
        assert forall|j: int| 0 <= j < k + 1 implies seg_ok(#[trigger] segs[j]) by {
            if j > 0 {
                assert(rest[j - 1] == segs[j]);
            }
        }
    }
}

/// Pins `first_bad_seg` to the index found by a left-to-right scan.
pub proof fn lemma_first_bad_seg(segs: Seq<Seq<char>>, k: int)
    requires
        0 <= k < segs.len(),
        forall|j: int| 0 <= j < k ==> seg_ok(#[trigger] segs[j]),
        !seg_ok(segs[k]),
    ensures
        first_bad_seg(segs) == k,
    decreases k,
{
    if k > 0 {
        assert(seg_ok(segs[0]));
        let rest = segs.drop_first();
        assert forall|j: int| 0 <= j < k - 1 implies seg_ok(#[trigger] rest[j]) by {
            assert(rest[j] == segs[j + 1]);
        }
        assert(rest[k - 1] == segs[k]);
        lemma_first_bad_seg(rest, k - 1);
    }
}

/// The project identifier rule: six to thirty bytes of lowercase letters,
/// digits and hyphens, starting with a letter, not ending with a hyphen,
/// and containing none of the reserved substrings.
pub open spec fn project_id_ok(s: Seq<char>) -> bool {
    &&& 6 <= byte_len(s) <= 30
    &&& forall|i: int| 0 <= i < s.len() ==> is_project_char(#[trigger] s[i])
    &&& s.len() > 0
    &&& is_lower_char(s[0])
    &&& s[s.len() - 1] != '-'
    &&& !contains_seq(s, "google"@)
    &&& !contains_seq(s, "null"@)
    &&& !contains_seq(s, "undefined"@)
    &&& !contains_seq(s, "ssl"@)
}

/// The first rule of `project_id_ok` that `s` violates.
pub open spec fn project_id_err(s: Seq<char>) -> ErrorKind
    recommends
        !project_id_ok(s),
{
    if !(6 <= byte_len(s) <= 30) {
        ErrorKind::LengthOutOfBounds
    } else if !(forall|i: int| 0 <= i < s.len() ==> is_project_char(#[trigger] s[i])) {
        ErrorKind::ContainsInvalidCharacter
    } else if !(s.len() > 0 && is_lower_char(s[0])) {
        ErrorKind::StartsWithNonLetter
    } else if s[s.len() - 1] == '-' {
        ErrorKind::EndsWithHyphen
    } else {
        ErrorKind::MatchesReservedIdPattern
    }
}

/// The database identifier rule: the literal `"(default)"`, or four to
/// sixty-three bytes of the project character class, starting with a
/// letter and not ending with a hyphen.
pub open spec fn database_id_ok(s: Seq<char>) -> bool {
    ||| s == "(default)"@
    ||| {
        &&& 4 <= byte_len(s) <= 63
        &&& forall|i: int| 0 <= i < s.len() ==> is_project_char(#[trigger] s[i])
        &&& s.len() > 0
        &&& is_lower_char(s[0])
        &&& s[s.len() - 1] != '-'
    }
}

/// The first rule of `database_id_ok` that a non-default `s` violates.
pub open spec fn database_id_err(s: Seq<char>) -> ErrorKind
    recommends
        !database_id_ok(s),
{
    if !(4 <= byte_len(s) <= 63) {
        ErrorKind::LengthOutOfBounds
    } else if !(forall|i: int| 0 <= i < s.len() ==> is_project_char(#[trigger] s[i])) {
        ErrorKind::ContainsInvalidCharacter
    } else if !(s.len() > 0 && is_lower_char(s[0])) {
        ErrorKind::StartsWithNonLetter
    } else {
        ErrorKind::EndsWithHyphen
    }
}

/// Checks the shared collection/document identifier rule.
fn validate_seg(s: &str) -> (r: Result<(), Error>)
    ensures
        r is Ok <==> seg_ok(s@),
        r is Err ==> r->Err_0.kind() == seg_err(s@) && r->Err_0.cause() is None,
{
    let nb: usize = str_byte_len(s);
    if nb < 1 || nb > 1500 {
        return Err(Error::new(ErrorKind::LengthOutOfBounds));
    }
    let n: usize = s.unicode_len();
    proof {
        lemma_byte_len_zero(s@);
    }
    let mut i: usize = 0;
    while i < n
        invariant
            0 <= i <= n,
            n == s@.len(),
            1 <= byte_len(s@) <= 1500,
            forall|j: int| 0 <= j < i ==> s@[j] != '/',
        decreases n - i,
    {
        if s.get_char(i) == '/' {
            proof {
                assert(s@[i as int] == '/');
                assert(!slash_free(s@));
            }
            return Err(Error::new(ErrorKind::ContainsSlash));
        }
        i += 1;
    }
    if n == 1 && s.get_char(0) == '.' {
        proof {
            assert(s@ =~= seq!['.']);
        }
        return Err(Error::new(ErrorKind::SinglePeriodOrDoublePeriods));
    }
    if n == 2 && s.get_char(0) == '.' && s.get_char(1) == '.' {
        proof {
            assert(s@ =~= seq!['.', '.']);
        }
        return Err(Error::new(ErrorKind::SinglePeriodOrDoublePeriods));
    }
    if n >= 2 && s.get_char(0) == '_' && s.get_char(1) == '_' && s.get_char(n - 1) == '_'
        && s.get_char(n - 2) == '_' {
        return Err(Error::new(ErrorKind::MatchesReservedIdPattern));
    }
    proof {
        if s@ == seq!['.'] {
            assert(s@.len() == 1 && s@[0] == '.');
        }
        if s@ == seq!['.', '.'] {
            assert(s@.len() == 2 && s@[0] == '.' && s@[1] == '.');
        }
    }
    Ok(())
}

/// Checks the project/database character class, first character and final
/// hyphen rules shared by `ProjectId` and `DatabaseId`.
fn validate_project_chars(s: &str) -> (r: Result<(), Error>)
    requires
        s@.len() > 0,
    ensures
        r is Ok <==> ((forall|i: int| 0 <= i < s@.len() ==> is_project_char(#[trigger] s@[i]))
            && s@.len() > 0 && is_lower_char(s@[0]) && s@[s@.len() - 1] != '-'),
        r is Err ==> r->Err_0.cause() is None,
        r is Err ==> r->Err_0.kind() == (if !(forall|i: int|
            0 <= i < s@.len() ==> is_project_char(#[trigger] s@[i])) {
            ErrorKind::ContainsInvalidCharacter
        } else if !(s@.len() > 0 && is_lower_char(s@[0])) {
            ErrorKind::StartsWithNonLetter
        } else {
            ErrorKind::EndsWithHyphen
        }),
{
    let n: usize = s.unicode_len();
    let mut i: usize = 0;
    while i < n
        invariant
            0 <= i <= n,
            n == s@.len(),
            forall|j: int| 0 <= j < i ==> is_project_char(#[trigger] s@[j]),
        decreases n - i,
    {
        let u = s.get_char(i) as u32;
        if !((97 <= u && u <= 122) || (48 <= u && u <= 57) || u == 45) {
            return Err(Error::new(ErrorKind::ContainsInvalidCharacter));
        }
        i += 1;
    }
    let f = s.get_char(0) as u32;
    if !(97 <= f && f <= 122) {
        return Err(Error::new(ErrorKind::StartsWithNonLetter));
    }
    if s.get_char(n - 1) == '-' {
        return Err(Error::new(ErrorKind::EndsWithHyphen));
    }
    Ok(())
}

/// A collection identifier: one slash-free segment of a path.
#[derive(Debug)]
pub struct CollectionId(String);

impl View for CollectionId {
    type V = Seq<char>;

    closed spec fn view(&self) -> Seq<char> {
        self.0@
    }
}

impl CollectionId {
    /// The identifier satisfies the segment rule.
    pub open spec fn wf(&self) -> bool {
        seg_ok(self@)
    }

    /// Parses a collection identifier, accepting exactly the strings that
    /// satisfy `seg_ok` and reporting the first rule violated otherwise.
    pub fn parse(s: &str) -> (r: Result<CollectionId, Error>)
        ensures
            r is Ok <==> seg_ok(s@),
            r is Ok ==> r->Ok_0@ == s@,
            r is Err ==> r->Err_0.kind() == seg_err(s@) && r->Err_0.cause() is None,
    {
        match validate_seg(s) {
            Ok(()) => Ok(CollectionId(s.to_owned())),
            Err(e) => Err(e),
        }
    }

    /// The identifier as a borrowed string slice.
    pub fn as_ref(&self) -> (r: &str)
        ensures
            r@ == self@,
    {
        self.0.as_str()
    }

    /// The identifier as an owned string.
    pub fn to_string(&self) -> (r: String)
        ensures
            r@ == self@,
    {
        self.0.clone()
    }
}

impl Clone for CollectionId {
    fn clone(&self) -> (r: Self)
        ensures
            r == *self,
    {
        CollectionId(self.0.clone())
    }
}

impl PartialEq for CollectionId {
    fn eq(&self, other: &Self) -> (r: bool) {
        self.0 == other.0
    }
}

impl vstd::std_specs::cmp::PartialEqSpecImpl for CollectionId {
    open spec fn obeys_eq_spec() -> bool {
        true
    }

    open spec fn eq_spec(&self, other: &Self) -> bool {
        self@ == other@
    }
}

impl TryFrom<&str> for CollectionId {
    type Error = Error;

    fn try_from(s: &str) -> Result<Self, Self::Error> {
        Self::parse(s)
    }
}

impl TryFrom<String> for CollectionId {
    type Error = Error;

    fn try_from(s: String) -> Result<Self, Self::Error> {
        Self::parse(s.as_str())
    }
}

impl vstd::std_specs::convert::TryFromSpecImpl<&str> for CollectionId {
    open spec fn obeys_try_from_spec() -> bool {
        false
    }

    open spec fn try_from_spec(v: &str) -> Result<Self, Self::Error> {
        arbitrary()
    }
}

impl vstd::std_specs::convert::TryFromSpecImpl<String> for CollectionId {
    open spec fn obeys_try_from_spec() -> bool {
        false
    }

    open spec fn try_from_spec(v: String) -> Result<Self, Self::Error> {
        arbitrary()
    }
}

impl std::str::FromStr for CollectionId {
    type Err = Error;

    fn from_str(s: &str) -> Result<Self, Self::Err> {
        Self::parse(s)
    }
}

/// A document identifier: one slash-free segment of a path, with the same
/// rule as a collection identifier.
#[derive(Debug)]
pub struct DocumentId(String);

impl View for DocumentId {
    type V = Seq<char>;

    closed spec fn view(&self) -> Seq<char> {
        self.0@
    }
}

impl DocumentId {
    /// The identifier satisfies the segment rule.
    pub open spec fn wf(&self) -> bool {
        seg_ok(self@)
    }

    /// Parses a document identifier, accepting exactly the strings that
    /// satisfy `seg_ok` and reporting the first rule violated otherwise.
    pub fn parse(s: &str) -> (r: Result<DocumentId, Error>)
        ensures
            r is Ok <==> seg_ok(s@),
            r is Ok ==> r->Ok_0@ == s@,
            r is Err ==> r->Err_0.kind() == seg_err(s@) && r->Err_0.cause() is None,
    {
        match validate_seg(s) {
            Ok(()) => Ok(DocumentId(s.to_owned())),
            Err(e) => Err(e),
        }
    }

    /// The identifier as a borrowed string slice.
    pub fn as_ref(&self) -> (r: &str)
        ensures
            r@ == self@,
    {
        self.0.as_str()
    }

    /// The identifier as an owned string.
    pub fn to_string(&self) -> (r: String)
        ensures
            r@ == self@,
    {
        self.0.clone()
    }
}

impl Clone for DocumentId {
    fn clone(&self) -> (r: Self)
        ensures
            r == *self,
    {
        DocumentId(self.0.clone())
    }
}

impl PartialEq for DocumentId {
    fn eq(&self, other: &Self) -> (r: bool) {
        self.0 == other.0
    }
}

impl vstd::std_specs::cmp::PartialEqSpecImpl for DocumentId {
    open spec fn obeys_eq_spec() -> bool {
        true
    }

    open spec fn eq_spec(&self, other: &Self) -> bool {
        self@ == other@
    }
}

impl TryFrom<&str> for DocumentId {
    type Error = Error;

    fn try_from(s: &str) -> Result<Self, Self::Error> {
        Self::parse(s)
    }
}

impl TryFrom<String> for DocumentId {
    type Error = Error;

    fn try_from(s: String) -> Result<Self, Self::Error> {
        Self::parse(s.as_str())
    }
}

impl vstd::std_specs::convert::TryFromSpecImpl<&str> for DocumentId {
    open spec fn obeys_try_from_spec() -> bool {
        false
    }

    open spec fn try_from_spec(v: &str) -> Result<Self, Self::Error> {
        arbitrary()
    }
}

impl vstd::std_specs::convert::TryFromSpecImpl<String> for DocumentId {
    open spec fn obeys_try_from_spec() -> bool {
        false
    }

    open spec fn try_from_spec(v: String) -> Result<Self, Self::Error> {
        arbitrary()
    }
}

impl std::str::FromStr for DocumentId {
    type Err = Error;

    fn from_str(s: &str) -> Result<Self, Self::Err> {
        Self::parse(s)
    }
}

/// A project identifier.
#[derive(Debug)]
pub struct ProjectId(String);

impl View for ProjectId {
    type V = Seq<char>;

    closed spec fn view(&self) -> Seq<char> {
        self.0@
    }
}

impl ProjectId {
    /// The identifier satisfies the project rule.
    pub open spec fn wf(&self) -> bool {
        project_id_ok(self@)
    }

    /// Parses a project identifier, accepting exactly the strings that
    /// satisfy `project_id_ok` and reporting the first rule violated
    /// otherwise.
    pub fn parse(s: &str) -> (r: Result<ProjectId, Error>)
        ensures
            r is Ok <==> project_id_ok(s@),
            r is Ok ==> r->Ok_0@ == s@,
            r is Err ==> r->Err_0.kind() == project_id_err(s@) && r->Err_0.cause() is None,
    {
        let nb: usize = str_byte_len(s);
        if nb < 6 || nb > 30 {
            return Err(Error::new(ErrorKind::LengthOutOfBounds));
        }
        proof {
            lemma_byte_len_zero(s@);
        }
        match validate_project_chars(s) {
            Ok(()) => {},
            Err(e) => {
                return Err(e);
            },
        }
        if contains_str(s, "google") {
            return Err(Error::new(ErrorKind::MatchesReservedIdPattern));
        }
        if contains_str(s, "null") {
            return Err(Error::new(ErrorKind::MatchesReservedIdPattern));
        }
        if contains_str(s, "undefined") {
            return Err(Error::new(ErrorKind::MatchesReservedIdPattern));
        }
        if contains_str(s, "ssl") {
            return Err(Error::new(ErrorKind::MatchesReservedIdPattern));
        }
        Ok(ProjectId(s.to_owned()))
    }

    /// The identifier as a borrowed string slice.
    pub fn as_ref(&self) -> (r: &str)
        ensures
            r@ == self@,
    {
        self.0.as_str()
    }

    /// The identifier as an owned string.
    pub fn to_string(&self) -> (r: String)
        ensures
            r@ == self@,
    {
        self.0.clone()
    }
}

impl Clone for ProjectId {
    fn clone(&self) -> (r: Self)
        ensures
            r == *self,
    {
        ProjectId(self.0.clone())
    }
}

impl PartialEq for ProjectId {
    fn eq(&self, other: &Self) -> (r: bool) {
        self.0 == other.0
    }
}

impl vstd::std_specs::cmp::PartialEqSpecImpl for ProjectId {
    open spec fn obeys_eq_spec() -> bool {
        true
    }

    open spec fn eq_spec(&self, other: &Self) -> bool {
        self@ == other@
    }
}

impl TryFrom<&str> for ProjectId {
    type Error = Error;

    fn try_from(s: &str) -> Result<Self, Self::Error> {
        Self::parse(s)
    }
}

impl TryFrom<String> for ProjectId {
    type Error = Error;

    fn try_from(s: String) -> Result<Self, Self::Error> {
        Self::parse(s.as_str())
    }
}

impl vstd::std_specs::convert::TryFromSpecImpl<&str> for ProjectId {
    open spec fn obeys_try_from_spec() -> bool {
        false
    }

    open spec fn try_from_spec(v: &str) -> Result<Self, Self::Error> {
        arbitrary()
    }
}

impl vstd::std_specs::convert::TryFromSpecImpl<String> for ProjectId {
    open spec fn obeys_try_from_spec() -> bool {
        false
    }

    open spec fn try_from_spec(v: String) -> Result<Self, Self::Error> {
        arbitrary()
    }
}

impl std::str::FromStr for ProjectId {
    type Err = Error;

    fn from_str(s: &str) -> Result<Self, Self::Err> {
        Self::parse(s)
    }
}

/// A database identifier.
#[derive(Debug)]
pub struct DatabaseId(String);

impl View for DatabaseId {
    type V = Seq<char>;

    closed spec fn view(&self) -> Seq<char> {
        self.0@
    }
}

impl DatabaseId {
    /// The identifier satisfies the database rule.
    pub open spec fn wf(&self) -> bool {
        database_id_ok(self@)
    }

    /// Parses a database identifier, accepting exactly the strings that
    /// satisfy `database_id_ok` and reporting the first rule violated
    /// otherwise.
    pub fn parse(s: &str) -> (r: Result<DatabaseId, Error>)
        ensures
            r is Ok <==> database_id_ok(s@),
            r is Ok ==> r->Ok_0@ == s@,
            r is Err ==> r->Err_0.kind() == database_id_err(s@) && r->Err_0.cause() is None,
    {
        if str_eq(s, "(default)") {
            return Ok(DatabaseId(s.to_owned()));
        }
        let nb: usize = str_byte_len(s);
        if nb < 4 || nb > 63 {
            return Err(Error::new(ErrorKind::LengthOutOfBounds));
        }
        proof {
            lemma_byte_len_zero(s@);
        }
        match validate_project_chars(s) {
            Ok(()) => Ok(DatabaseId(s.to_owned())),
            Err(e) => Err(e),
        }
    }

    /// The identifier as a borrowed string slice.
    pub fn as_ref(&self) -> (r: &str)
        ensures
            r@ == self@,
    {
        self.0.as_str()
    }

    /// The identifier as an owned string.
    pub fn to_string(&self) -> (r: String)
        ensures
            r@ == self@,
    {
        self.0.clone()
    }
}

impl Clone for DatabaseId {
    fn clone(&self) -> (r: Self)
        ensures
            r == *self,
    {
        DatabaseId(self.0.clone())
    }
}

impl Default for DatabaseId {
    /// The default database identifier, `"(default)"`.
    fn default() -> (r: Self)
        ensures
            r@ == "(default)"@,
    {
        DatabaseId(String::from_str("(default)"))
    }
}

impl PartialEq for DatabaseId {
    fn eq(&self, other: &Self) -> (r: bool) {
        self.0 == other.0
    }
}

impl vstd::std_specs::cmp::PartialEqSpecImpl for DatabaseId {
    open spec fn obeys_eq_spec() -> bool {
        true
    }

    open spec fn eq_spec(&self, other: &Self) -> bool {
        self@ == other@
    }
}

impl TryFrom<&str> for DatabaseId {
    type Error = Error;

    fn try_from(s: &str) -> Result<Self, Self::Error> {
        Self::parse(s)
    }
}

impl TryFrom<String> for DatabaseId {
    type Error = Error;

    fn try_from(s: String) -> Result<Self, Self::Error> {
        Self::parse(s.as_str())
    }
}

impl vstd::std_specs::convert::TryFromSpecImpl<&str> for DatabaseId {
    open spec fn obeys_try_from_spec() -> bool {
        false
    }

    open spec fn try_from_spec(v: &str) -> Result<Self, Self::Error> {
        arbitrary()
    }
}

impl vstd::std_specs::convert::TryFromSpecImpl<String> for DatabaseId {
    open spec fn obeys_try_from_spec() -> bool {
        false
    }

    open spec fn try_from_spec(v: String) -> Result<Self, Self::Error> {
        arbitrary()
    }
}

impl std::str::FromStr for DatabaseId {
    type Err = Error;

    fn from_str(s: &str) -> Result<Self, Self::Err> {
        Self::parse(s)
    }
}

/// An argument accepted by the document-descend operations: a raw string
/// or an already-validated document identifier.
pub trait TryIntoDocumentId: Sized {
    /// The characters of the identifier this argument denotes.
    spec fn arg_str(&self) -> Seq<char>;

    /// The argument's own invariant; trivially true for raw strings.
    spec fn arg_wf(&self) -> bool;

    /// Converts the argument into a validated document identifier.
    fn try_into_document_id(self) -> (r: Result<DocumentId, Error>)
        requires
            self.arg_wf(),
        ensures
            r is Ok <==> seg_ok(self.arg_str()),
            r is Ok ==> r->Ok_0@ == self.arg_str(),
            r is Err ==> r->Err_0.kind() == seg_err(self.arg_str()) && r->Err_0.cause() is None,
    ;
}

impl TryIntoDocumentId for &str {
    open spec fn arg_str(&self) -> Seq<char> {
        self@
    }

    open spec fn arg_wf(&self) -> bool {
        true
    }

    fn try_into_document_id(self) -> (r: Result<DocumentId, Error>) {
        DocumentId::parse(self)
    }
}

impl TryIntoDocumentId for String {
    open spec fn arg_str(&self) -> Seq<char> {
        self@
    }

    open spec fn arg_wf(&self) -> bool {
        true
    }

    fn try_into_document_id(self) -> (r: Result<DocumentId, Error>) {
        DocumentId::parse(self.as_str())
    }
}

impl TryIntoDocumentId for DocumentId {
    open spec fn arg_str(&self) -> Seq<char> {
        self@
    }

    open spec fn arg_wf(&self) -> bool {
        self.wf()
    }

    fn try_into_document_id(self) -> (r: Result<DocumentId, Error>) {
        Ok(self)
    }
}

/// An argument accepted by `DatabaseName::from_project_id`: a raw string
/// or an already-validated project identifier.
pub trait TryIntoProjectId: Sized {
    /// The characters of the identifier this argument denotes.
    spec fn arg_str(&self) -> Seq<char>;

    /// The argument's own invariant; trivially true for raw strings.
    spec fn arg_wf(&self) -> bool;

    /// Converts the argument into a validated project identifier.
    fn try_into_project_id(self) -> (r: Result<ProjectId, Error>)
        requires
            self.arg_wf(),
        ensures
            r is Ok <==> project_id_ok(self.arg_str()),
            r is Ok ==> r->Ok_0@ == self.arg_str(),
            r is Err ==> r->Err_0.kind() == project_id_err(self.arg_str()) && r->Err_0.cause()
                is None,
    ;
}

impl TryIntoProjectId for &str {
    open spec fn arg_str(&self) -> Seq<char> {
        self@
    }

    open spec fn arg_wf(&self) -> bool {
        true
    }

    fn try_into_project_id(self) -> (r: Result<ProjectId, Error>) {
        ProjectId::parse(self)
    }
}

impl TryIntoProjectId for String {
    open spec fn arg_str(&self) -> Seq<char> {
        self@
    }

    open spec fn arg_wf(&self) -> bool {
        true
    }

    fn try_into_project_id(self) -> (r: Result<ProjectId, Error>) {
        ProjectId::parse(self.as_str())
    }
}

impl TryIntoProjectId for ProjectId {
    open spec fn arg_str(&self) -> Seq<char> {
        self@
    }

    open spec fn arg_wf(&self) -> bool {
        self.wf()
    }

    fn try_into_project_id(self) -> (r: Result<ProjectId, Error>) {
        Ok(self)
    }
}

} // verus!
