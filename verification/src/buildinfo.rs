//! The build information that marks a version of a bindle.

use vstd::prelude::*;
use vstd::string::*;
use vstd::utf8::*;

use crate::error::{outcome, DeployError};
use crate::outside::{
    build_metadata, is_build_metadata, is_identifier_char, random_bytes, sha256, sha256_digest,
};
use crate::text::{
    hex_digit, hex_number, hex_number_text, hex_pair, hex_pair_text, law_hexadecimal,
};

verus! {

/// Build metadata of a version. Its view is its text.
#[derive(Debug)]
pub struct BuildInfo {
    text: String,
}

impl View for BuildInfo {
    type V = Seq<char>;

    closed spec fn view(&self) -> Seq<char> {
        self.text@
    }
}

/// The outcome of reading build metadata.
pub open spec fn info_outcome(text: Seq<char>) -> Result<Seq<char>, DeployError<Seq<char>>> {
    if is_build_metadata(text) {
        Ok(text)
    } else {
        Err(DeployError::InvalidBuildInfo)
    }
}

impl BuildInfo {
    #[verifier::type_invariant]
    spec fn is_metadata(self) -> bool {
        is_build_metadata(self.text@)
    }

    /// The build metadata that a text spells. The bound on its length is that of
    /// the memory of a 32-bit machine.
    pub fn new(text: &str) -> (info: Result<BuildInfo, DeployError>)
        requires
            text@.len() <= 0x7fff_fff0,
        ensures
            outcome(info) == info_outcome(text@),
    {
        match build_metadata(text) {
            Ok(text) => Ok(BuildInfo { text }),
            Err(_) => Err(DeployError::InvalidBuildInfo),
        }
    }

    /// The text of the build metadata.
    pub fn as_str(&self) -> (text: &str)
        ensures
            text@ == self@,
            is_build_metadata(text@),
    {
        proof {
            use_type_invariant(&*self);
        }
        self.text.as_str()
    }
}

/// Hexadecimal digits may stand in build metadata.
proof fn lemma_hex_digit(n: int)
    requires
        0 <= n < 16,
    ensures
        is_identifier_char(hex_digit(n)),
{
}

proof fn lemma_hex_pair(byte: u8)
    ensures
        forall|i: int| 0 <= i < 2 ==> is_identifier_char(#[trigger] hex_pair(byte)[i]),
{
    lemma_hex_digit(byte as int / 16);
    lemma_hex_digit(byte as int % 16);
}

/// The build information of four drawn bytes: the letter r, then each byte as a
/// hexadecimal number.
pub open spec fn drawn_info(bytes: Seq<u8>) -> Seq<char> {
    "r"@ + hex_number(bytes[0]) + hex_number(bytes[1]) + hex_number(bytes[2]) + hex_number(bytes[3])
}

/// Whether a text is the build information of some four bytes.
pub open spec fn is_drawn(info: Seq<char>) -> bool {
    exists|bytes: Seq<u8>| bytes.len() == 4 && info == #[trigger] drawn_info(bytes)
}

proof fn lemma_drawn_info(bytes: Seq<u8>)
    ensures
        is_build_metadata(drawn_info(bytes)),
        5 <= drawn_info(bytes).len() <= 9,
{
    reveal_strlit("r");
    lemma_hex_pair(bytes[0]);
    lemma_hex_pair(bytes[1]);
    lemma_hex_pair(bytes[2]);
    lemma_hex_pair(bytes[3]);
    assert forall|b: u8, i: int| 0 <= i < hex_number(b).len() implies is_identifier_char(
        #[trigger] hex_number(b)[i],
    ) by {
        lemma_hex_pair(b);
        if b < 16 {
            lemma_hex_digit(b as int);
        }
    }
}

/// The build information of four bytes.
pub fn buildinfo_from_bytes(bytes: [u8; 4]) -> (info: BuildInfo)
    ensures
        info@ == drawn_info(bytes@),
{
    let text = "r".to_owned().concat(hex_number_text(bytes[0]).as_str()).concat(
        hex_number_text(bytes[1]).as_str(),
    ).concat(hex_number_text(bytes[2]).as_str()).concat(hex_number_text(bytes[3]).as_str());
    proof {
        lemma_drawn_info(bytes@);
    }
    BuildInfo::new(text.as_str()).unwrap()
}

/// Build information of four bytes drawn at random.
pub fn random_buildinfo() -> (info: BuildInfo)
    ensures
        is_drawn(info@),
{
    let bytes = random_bytes();
    let info = buildinfo_from_bytes(bytes);
    assert(bytes@.len() == 4);
    info
}

/// Where a component's module comes from, as far as the digest of an
/// application goes.
#[derive(Debug)]
pub enum ModuleSource {
    /// A local file, by its content.
    File(Vec<u8>),
    /// A remote file, by its digest.
    Remote { digest: String },
}

impl ModuleSource {
    /// The bytes that the source adds to the digest of an application.
    pub open spec fn bytes(self) -> Seq<u8> {
        match self {
            ModuleSource::File(content) => content@,
            ModuleSource::Remote { digest } => encode_utf8(digest@),
        }
    }
}

/// What a component adds to the digest of an application.
#[derive(Debug)]
pub struct ComponentFiles {
    pub source: ModuleSource,
    /// The content of each asset of the component.
    pub assets: Vec<Vec<u8>>,
}

/// The contents of some files, one after the other.
pub open spec fn joined_contents(files: Seq<Vec<u8>>) -> Seq<u8>
    decreases files.len(),
{
    if files.len() == 0 {
        Seq::empty()
    } else {
        joined_contents(files.drop_last()) + files.last()@
    }
}

/// What the components of an application add to its digest: of each in turn its
/// module, then its assets.
pub open spec fn component_bytes(components: Seq<ComponentFiles>) -> Seq<u8>
    decreases components.len(),
{
    if components.len() == 0 {
        Seq::empty()
    } else {
        component_bytes(components.drop_last()) + components.last().source.bytes()
            + joined_contents(components.last().assets@)
    }
}

/// The digits of some bytes.
pub open spec fn hex_digits(bytes: Seq<u8>) -> Seq<char>
    decreases bytes.len(),
{
    if bytes.len() == 0 {
        Seq::empty()
    } else {
        hex_digits(bytes.drop_last()) + hex_pair(bytes.last())
    }
}

/// The first `n` characters of a text, or the whole of a shorter one.
pub open spec fn at_most(text: Seq<char>, n: int) -> Seq<char> {
    if text.len() <= n {
        text
    } else {
        text.take(n)
    }
}

/// The build information of a digest: the letter q, then the leading digits, to
/// eight characters in all.
pub open spec fn digest_info(digest: Seq<u8>) -> Seq<char> {
    at_most("q"@ + hex_digits(digest), 8)
}

proof fn lemma_hex_digits(bytes: Seq<u8>)
    ensures
        hex_digits(bytes).len() == 2 * bytes.len(),
        forall|i: int|
            0 <= i < hex_digits(bytes).len() ==> is_identifier_char(#[trigger] hex_digits(bytes)[i]),
    decreases bytes.len(),
{
    if bytes.len() > 0 {
        lemma_hex_digits(bytes.drop_last());
        lemma_hex_pair(bytes.last());
        assert forall|i: int| 0 <= i < hex_digits(bytes).len() implies is_identifier_char(
            #[trigger] hex_digits(bytes)[i],
        ) by {
            let front = hex_digits(bytes.drop_last());
            if i < front.len() {
                assert(hex_digits(bytes)[i] == front[i]);
            } else {
                assert(hex_digits(bytes)[i] == hex_pair(bytes.last())[i - front.len()]);
            }
        }
    }
}

proof fn lemma_digest_info(digest: Seq<u8>)
    ensures
        is_build_metadata(digest_info(digest)),
        digest_info(digest).len() <= 8,
        digest.len() >= 4 ==> digest_info(digest).len() == 8,
        digest_info(digest)[0] == 'q',
{
    reveal_strlit("q");
    lemma_hex_digits(digest);
}

/// Puts the bytes of one list behind those of another.
fn append_bytes(bytes: &mut Vec<u8>, more: &[u8])
    ensures
        final(bytes)@ == old(bytes)@ + more@,
{
    let ghost start = bytes@;
    let mut i: usize = 0;
    while i < more.len()
        invariant
            i <= more@.len(),
            bytes@ == start + more@.take(i as int),
        decreases more@.len() - i,
    {
        bytes.push(more[i]);
        i += 1;
        assert(more@.take(i as int) == more@.take(i - 1).push(more@[i - 1]));
    }
    assert(more@.take(more@.len() as int) == more@);
}

/// The bytes that the digest of an application is taken of: what its components
/// add, then its manifest file.
pub fn digest_input(components: &Vec<ComponentFiles>, app_file: &Vec<u8>) -> (input: Vec<u8>)
    ensures
        input@ == component_bytes(components@) + app_file@,
{
    let mut input: Vec<u8> = Vec::new();
    let mut i: usize = 0;
    assert(components@.take(0) == Seq::<ComponentFiles>::empty());
    while i < components.len()
        invariant
            i <= components@.len(),
            input@ == component_bytes(components@.take(i as int)),
        decreases components@.len() - i,
    {
        let component = &components[i];
        match &component.source {
            ModuleSource::File(content) => append_bytes(&mut input, content.as_slice()),
            ModuleSource::Remote { digest } => append_bytes(&mut input, digest.as_str().as_bytes()),
        }
        let ghost with_source = input@;
        let assets = &component.assets;
        let mut j: usize = 0;
        assert(assets@.take(0) == Seq::<Vec<u8>>::empty());
        while j < assets.len()
            invariant
                j <= assets@.len(),
                input@ == with_source + joined_contents(assets@.take(j as int)),
            decreases assets@.len() - j,
        {
            append_bytes(&mut input, assets[j].as_slice());
            j += 1;
            assert(assets@.take(j as int).drop_last() == assets@.take(j - 1));
        }
        assert(assets@.take(assets@.len() as int) == assets@);
        i += 1;
        assert(components@.take(i as int).drop_last() == components@.take(i - 1));
    }
    assert(components@.take(components@.len() as int) == components@);
    append_bytes(&mut input, app_file.as_slice());
    input
}

/// The build information of a digest.
pub fn buildinfo_from_digest(digest: &Vec<u8>) -> (info: BuildInfo)
    ensures
        info@ == digest_info(digest@),
{
    let mut text = "q".to_owned();
    let mut i: usize = 0;
    assert(digest@.take(0) == Seq::<u8>::empty());
    while i < digest.len() && i < 4
        invariant
            i <= digest@.len(),
            i <= 4,
            text@ == "q"@ + hex_digits(digest@.take(i as int)),
        decreases digest@.len() - i,
    {
        let digits = hex_pair_text(digest[i]);
        text.append(digits.as_str());
        i += 1;
        assert(digest@.take(i as int).drop_last() == digest@.take(i - 1));
    }
    proof {
        lemma_digest_info(digest@);
        lemma_hex_digits(digest@.take(i as int));
        lemma_digits_of_prefix(digest@, i as int);
        lemma_hex_digits(digest@);
        reveal_strlit("q");
    }
    let length: usize = if i < 4 { 2 * i + 1 } else { 8 };
    let text = text.as_str().substring_char(0, length);
    assert(text@ == digest_info(digest@));
    BuildInfo::new(text).unwrap()
}

/// The digits of the first bytes lead the digits of all of them.
proof fn lemma_digits_of_prefix(bytes: Seq<u8>, n: int)
    requires
        0 <= n <= bytes.len(),
    ensures
        hex_digits(bytes.take(n)) == hex_digits(bytes).take(2 * n),
    decreases bytes.len(),
{
    lemma_hex_digits(bytes);
    lemma_hex_digits(bytes.take(n));
    if n == bytes.len() {
        assert(bytes.take(n) == bytes);
    } else {
        lemma_digits_of_prefix(bytes.drop_last(), n);
        lemma_hex_digits(bytes.drop_last());
        assert(bytes.drop_last().take(n) == bytes.take(n));
        assert(hex_digits(bytes).take(2 * n) == hex_digits(bytes.drop_last()).take(2 * n));
    }
}

/// The build information that an application's content determines.
pub fn compute_buildinfo(components: &Vec<ComponentFiles>, app_file: &Vec<u8>) -> (info: BuildInfo)
    ensures
        info@ == digest_info(sha256_digest(component_bytes(components@) + app_file@)),
        info@.len() == 8,
        info@[0] == 'q',
{
    let input = digest_input(components, app_file);
    let digest = sha256(input.as_slice());
    proof {
        lemma_digest_info(digest@);
    }
    buildinfo_from_digest(&digest)
}

/// The build information that a bindle gets: none if that is asked for, else the
/// one that is given, else the fallback.
pub open spec fn chosen_info(
    no_buildinfo: bool,
    given: Option<BuildInfo>,
    fallback: BuildInfo,
) -> Option<Seq<char>> {
    if no_buildinfo {
        None
    } else {
        match given {
            Some(info) => Some(info@),
            None => Some(fallback@),
        }
    }
}

/// The text of the build information that a bindle gets.
pub fn choose_buildinfo(
    no_buildinfo: bool,
    given: &Option<BuildInfo>,
    fallback: BuildInfo,
) -> (info: Option<String>)
    ensures
        info.deep_view() == chosen_info(no_buildinfo, *given, fallback),
{
    if no_buildinfo {
        None
    } else {
        match given {
            Some(info) => Some(info.as_str().to_owned()),
            None => Some(fallback.as_str().to_owned()),
        }
    }
}

/// Build information drawn at random is build metadata, begins with r and has
/// between five and nine characters.
pub proof fn law_drawn_info_is_metadata(bytes: Seq<u8>)
    requires
        bytes.len() == 4,
    ensures
        is_build_metadata(drawn_info(bytes)),
        5 <= drawn_info(bytes).len() <= 9,
        drawn_info(bytes)[0] == 'r',
{
    reveal_strlit("r");
    lemma_drawn_info(bytes);
}

/// A text that may have been drawn is that of some four bytes: build metadata that
/// begins with r and has between five and nine characters.
pub proof fn law_drawn_texts_have_their_shape(info: Seq<char>)
    requires
        is_drawn(info),
    ensures
        is_build_metadata(info),
        5 <= info.len() <= 9,
        info[0] == 'r',
        exists|bytes: Seq<u8>| bytes.len() == 4 && info == #[trigger] drawn_info(bytes),
{
    let bytes = choose|bytes: Seq<u8>| bytes.len() == 4 && info == #[trigger] drawn_info(bytes);
    law_drawn_info_is_metadata(bytes);
}

/// Build information of a digest is build metadata, begins with q and has eight
/// characters if the digest has at least four bytes.
pub proof fn law_digest_info_is_metadata(digest: Seq<u8>)
    ensures
        is_build_metadata(digest_info(digest)),
        digest.len() >= 4 ==> digest_info(digest).len() == 8,
        digest_info(digest)[0] == 'q',
{
    lemma_digest_info(digest);
}

/// Drawn build information is the letter r and the four bytes one after the other,
/// each as a hexadecimal number without leading zeros.
pub proof fn law_drawn_info_spells_the_bytes(
    bytes: Seq<u8>,
    a: Seq<char>,
    b: Seq<char>,
    c: Seq<char>,
    d: Seq<char>,
)
    requires
        bytes.len() == 4,
        spells(a, bytes[0]),
        spells(b, bytes[1]),
        spells(c, bytes[2]),
        spells(d, bytes[3]),
    ensures
        drawn_info(bytes) == seq!['r'] + a + b + c + d,
{
    reveal_strlit("r");
    law_hexadecimal(bytes[0]);
    law_hexadecimal(bytes[1]);
    law_hexadecimal(bytes[2]);
    law_hexadecimal(bytes[3]);
    lemma_spells(a, bytes[0]);
    lemma_spells(b, bytes[1]);
    lemma_spells(c, bytes[2]);
    lemma_spells(d, bytes[3]);
    assert("r"@ =~= seq!['r']);
}

/// Whether digits are a byte as a hexadecimal number without leading zeros.
pub open spec fn spells(digits: Seq<char>, byte: u8) -> bool {
    &&& byte < 16 ==> digits.len() == 1 && digits[0] == "0123456789abcdef"@[byte as int]
    &&& byte >= 16 ==> digits.len() == 2 && digits[0] == "0123456789abcdef"@[byte as int / 16]
        && digits[1] == "0123456789abcdef"@[byte as int % 16]
}

proof fn lemma_spells(digits: Seq<char>, byte: u8)
    requires
        spells(digits, byte),
    ensures
        digits == hex_number(byte),
{
    law_hexadecimal(byte);
    assert(digits =~= hex_number(byte));
}

/// Build information of a digest is the letter q and the first seven digits, or all
/// of them if there are fewer: of each byte the upper and then the lower one.
pub proof fn law_digest_info_spells_the_digest(digest: Seq<u8>)
    ensures
        digest_info(digest).len() == if digest.len() >= 4 {
            8
        } else {
            1 + 2 * digest.len()
        },
        digest_info(digest)[0] == 'q',
        forall|k: int|
            0 <= k < digest_info(digest).len() - 1 ==> #[trigger] digest_info(digest)[k + 1] == "0123456789abcdef"@[if k % 2
                == 0 {
                digest[k / 2] as int / 16
            } else {
                digest[k / 2] as int % 16
            }],
{
    reveal_strlit("q");
    lemma_digest_info(digest);
    lemma_hex_digits(digest);
    assert forall|k: int|
        0 <= k < digest_info(digest).len() - 1 implies #[trigger] digest_info(digest)[k + 1]
        == "0123456789abcdef"@[if k % 2 == 0 {
        digest[k / 2] as int / 16
    } else {
        digest[k / 2] as int % 16
    }] by {
        lemma_digit_at(digest, k);
        law_hexadecimal(digest[k / 2]);
        assert(digest_info(digest)[k + 1] == hex_digits(digest)[k]);
    }
}

proof fn lemma_digit_at(bytes: Seq<u8>, k: int)
    requires
        0 <= k < 2 * bytes.len(),
    ensures
        hex_digits(bytes).len() == 2 * bytes.len(),
        hex_digits(bytes)[k] == hex_pair(bytes[k / 2])[k % 2],
    decreases bytes.len(),
{
    lemma_hex_digits(bytes);
    lemma_hex_digits(bytes.drop_last());
    let front = hex_digits(bytes.drop_last());
    if k < front.len() {
        lemma_digit_at(bytes.drop_last(), k);
        assert(bytes.drop_last()[k / 2] == bytes[k / 2]);
    } else {
        assert(k / 2 == bytes.len() - 1);
        assert(hex_digits(bytes)[k] == hex_pair(bytes.last())[k - front.len()]);
    }
}

/// One more component adds its module, a local one by its content and a remote one
/// by its digest, and then its assets one after the other, and changes nothing of
/// what the others add.
pub proof fn law_a_component_adds_its_files(
    components: Seq<ComponentFiles>,
    component: ComponentFiles,
    asset: Vec<u8>,
    assets: Seq<Vec<u8>>,
)
    ensures
        component_bytes(Seq::empty()) == Seq::<u8>::empty(),
        component.source matches ModuleSource::File(content) ==> component_bytes(
            components.push(component),
        ) == component_bytes(components) + content@ + joined_contents(component.assets@),
        component.source matches ModuleSource::Remote { digest } ==> component_bytes(
            components.push(component),
        ) == component_bytes(components) + encode_utf8(digest@) + joined_contents(
            component.assets@,
        ),
        joined_contents(Seq::empty()) == Seq::<u8>::empty(),
        joined_contents(assets.push(asset)) == joined_contents(assets) + asset@,
{
    assert(components.push(component).drop_last() =~= components);
    assert(assets.push(asset).drop_last() =~= assets);
}

/// A bindle goes without build information exactly if that is asked for. Else the
/// given one is used whatever the fallback is, and the fallback only if none is
/// given.
pub proof fn law_given_info_comes_first(
    no_buildinfo: bool,
    given: Option<BuildInfo>,
    fallback: BuildInfo,
)
    ensures
        chosen_info(no_buildinfo, given, fallback) is None <==> no_buildinfo,
        !no_buildinfo && given is Some ==> chosen_info(no_buildinfo, given, fallback) == Some(
            given->0@,
        ),
        !no_buildinfo && given is None ==> chosen_info(no_buildinfo, given, fallback) == Some(
            fallback@,
        ),
{
}

/// A text is taken as build information unchanged, and exactly if it is build
/// metadata.
pub proof fn law_build_info_is_read_unchanged(text: Seq<char>)
    ensures
        is_build_metadata(text) ==> info_outcome(text) == Ok::<Seq<char>, DeployError<Seq<char>>>(
            text,
        ),
        !is_build_metadata(text) ==> info_outcome(text) == Err::<
            Seq<char>,
            DeployError<Seq<char>>,
        >(DeployError::InvalidBuildInfo),
{
}

} // verus!
