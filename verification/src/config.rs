use vstd::prelude::*;
use vstd::string::*;

use crate::document::{lookup_item, text_parses, toml_lookup, toml_parses, TomlItem};
use crate::target::Target;

verus! {

/// The ways in which `Cross.toml` can be refused.
#[derive(Clone, Copy, PartialEq, Eq, Structural, Debug)]
pub enum ConfigErrorKind {
    /// The file is not a TOML document.
    Unparsable,
    /// A setting that must be a string is something else.
    NotAString,
    /// A setting that must be a boolean is something else.
    NotABoolean,
    /// A list of environment variables holds an element that is not a string.
    NotAllStrings,
}

/// A refusal of `Cross.toml`: its kind, and the file or key it concerns.
#[derive(Clone, PartialEq, Eq, Debug)]
pub struct ConfigError {
    pub kind: ConfigErrorKind,
    pub subject: String,
}

/// The message that reports an error of kind `kind` about `subject`.
pub open spec fn error_message(kind: ConfigErrorKind, subject: Seq<char>) -> Seq<char> {
    match kind {
        ConfigErrorKind::Unparsable => "couldn't parse "@ + subject + " as TOML"@,
        ConfigErrorKind::NotAString => subject + " must be a string"@,
        ConfigErrorKind::NotABoolean => subject + " must be a boolean"@,
        ConfigErrorKind::NotAllStrings => "every "@ + subject + " element must be a string"@,
    }
}

/// An error as plain values: its kind and its subject.
pub open spec fn error_view(e: ConfigError) -> (ConfigErrorKind, Seq<char>) {
    (e.kind, e.subject@)
}

impl ConfigError {
    /// The error as a sentence, such as `target.x86_64-unknown-linux-gnu.image must be a string`.
    pub fn message(&self) -> (r: String)
        ensures
            r@ == error_message(self.kind, self.subject@),
    {
        let mut m = String::new();
        match self.kind {
            ConfigErrorKind::Unparsable => {
                m.append("couldn't parse ");
                m.append(self.subject.as_str());
                m.append(" as TOML");
            },
            ConfigErrorKind::NotAString => {
                m.append(self.subject.as_str());
                m.append(" must be a string");
            },
            ConfigErrorKind::NotABoolean => {
                m.append(self.subject.as_str());
                m.append(" must be a boolean");
            },
            ConfigErrorKind::NotAllStrings => {
                m.append("every ");
                m.append(self.subject.as_str());
                m.append(" element must be a string");
            },
        }
        m
    }
}

fn config_error(kind: ConfigErrorKind, subject: &str) -> (e: ConfigError)
    ensures
        error_view(e) == (kind, subject@),
{
    ConfigError { kind, subject: subject.to_owned() }
}

/// The key `target.<triple>.<field>` of `Cross.toml`.
pub open spec fn target_key(triple: Seq<char>, field: Seq<char>) -> Seq<char> {
    "target."@ + triple + "."@ + field
}

/// `target_key` as a string.
pub fn target_key_text(triple: &str, field: &str) -> (r: String)
    ensures
        r@ == target_key(triple@, field@),
{
    let mut k = String::new();
    k.append("target.");
    k.append(triple);
    k.append(".");
    k.append(field);
    k
}

/// A setting that must be a string, read from what the document holds under `key`.
pub open spec fn string_setting(item: TomlItem, key: Seq<char>) -> Result<
    Option<Seq<char>>,
    (ConfigErrorKind, Seq<char>),
> {
    match item {
        TomlItem::Absent => Ok(None),
        TomlItem::Str(s) => Ok(Some(s@)),
        _ => Err((ConfigErrorKind::NotAString, key)),
    }
}

/// A setting that must be a boolean, read from what the document holds under `key`.
pub open spec fn bool_setting(item: TomlItem, key: Seq<char>) -> Result<
    Option<bool>,
    (ConfigErrorKind, Seq<char>),
> {
    match item {
        TomlItem::Absent => Ok(None),
        TomlItem::Boolean(b) => Ok(Some(b)),
        _ => Err((ConfigErrorKind::NotABoolean, key)),
    }
}

/// Whether every element of an array is a string.
pub open spec fn all_strings(elems: Seq<Option<String>>) -> bool {
    forall|i: int| 0 <= i < elems.len() ==> (#[trigger] elems[i]) is Some
}

/// The strings of an array whose elements are all strings.
pub open spec fn strings_of(elems: Seq<Option<String>>) -> Seq<Seq<char>> {
    elems.map_values(|o: Option<String>| o->0@)
}

/// A list of strings read from what the document holds under `key`: an array
/// whose elements are all strings gives them in order, any other array is refused,
/// and anything that is not an array gives the empty list.
pub open spec fn list_setting(item: TomlItem, key: Seq<char>) -> Result<
    Seq<Seq<char>>,
    (ConfigErrorKind, Seq<char>),
> {
    match item {
        TomlItem::Array(elems) => if all_strings(elems@) {
            Ok(strings_of(elems@))
        } else {
            Err((ConfigErrorKind::NotAllStrings, key))
        },
        _ => Ok(Seq::empty()),
    }
}

/// The characters of each string.
pub open spec fn string_views(v: Seq<String>) -> Seq<Seq<char>> {
    v.map_values(|s: String| s@)
}

/// A string setting as plain values.
pub open spec fn text_result_view(r: Result<Option<String>, ConfigError>) -> Result<
    Option<Seq<char>>,
    (ConfigErrorKind, Seq<char>),
> {
    match r {
        Ok(Some(s)) => Ok(Some(s@)),
        Ok(None) => Ok(None),
        Err(e) => Err(error_view(e)),
    }
}

/// A boolean setting as plain values.
pub open spec fn flag_result_view(r: Result<Option<bool>, ConfigError>) -> Result<
    Option<bool>,
    (ConfigErrorKind, Seq<char>),
> {
    match r {
        Ok(b) => Ok(b),
        Err(e) => Err(error_view(e)),
    }
}

/// A list setting as plain values.
pub open spec fn list_result_view(r: Result<Vec<String>, ConfigError>) -> Result<
    Seq<Seq<char>>,
    (ConfigErrorKind, Seq<char>),
> {
    match r {
        Ok(v) => Ok(string_views(v@)),
        Err(e) => Err(error_view(e)),
    }
}

/// Reads a setting that must be a string from the item found under `key`.
pub fn read_string(item: &TomlItem, key: &str) -> (r: Result<Option<String>, ConfigError>)
    ensures
        text_result_view(r) == string_setting(*item, key@),
{
    match item {
        TomlItem::Absent => Ok(None),
        TomlItem::Str(s) => Ok(Some(s.clone())),
        _ => Err(config_error(ConfigErrorKind::NotAString, key)),
    }
}

/// Reads a setting that must be a boolean from the item found under `key`.
pub fn read_bool(item: &TomlItem, key: &str) -> (r: Result<Option<bool>, ConfigError>)
    ensures
        flag_result_view(r) == bool_setting(*item, key@),
{
    match item {
        TomlItem::Absent => Ok(None),
        TomlItem::Boolean(b) => Ok(Some(*b)),
        _ => Err(config_error(ConfigErrorKind::NotABoolean, key)),
    }
}

/// The strings of an array, or `None` where an element is not a string.
fn collect_strings(elems: &Vec<Option<String>>) -> (r: Option<Vec<String>>)
    ensures
        r is Some <==> all_strings(elems@),
        r matches Some(v) ==> string_views(v@) == strings_of(elems@),
{
    let mut out: Vec<String> = Vec::new();
    let mut i: usize = 0;
    while i < elems.len()
        invariant
            i <= elems@.len(),
            out@.len() == i,
            forall|j: int| 0 <= j < i ==> (#[trigger] elems@[j]) is Some,
            forall|j: int| 0 <= j < i ==> (#[trigger] out@[j])@ == elems@[j]->0@,
        decreases elems@.len() - i,
    {
        match &elems[i] {
            Some(s) => {
                out.push(s.clone());
            },
            None => {
                assert(elems@[i as int] is None);
                return None;
            },
        }
        i = i + 1;
    }
    assert(string_views(out@) =~= strings_of(elems@));
    Some(out)
}

/// Reads a list of strings from the item found under `key`.
pub fn read_string_list(item: &TomlItem, key: &str) -> (r: Result<Vec<String>, ConfigError>)
    ensures
        list_result_view(r) == list_setting(*item, key@),
{
    match item {
        TomlItem::Array(elems) => match collect_strings(elems) {
            Some(v) => Ok(v),
            None => Err(config_error(ConfigErrorKind::NotAllStrings, key)),
        },
        _ => {
            let v: Vec<String> = Vec::new();
            assert(string_views(v@) =~= Seq::empty());
            Ok(v)
        },
    }
}

/// A setting of `target.<triple>` that must be a string.
pub open spec fn target_string_setting(doc: Seq<char>, triple: Seq<char>, field: Seq<char>) -> Result<
    Option<Seq<char>>,
    (ConfigErrorKind, Seq<char>),
> {
    string_setting(toml_lookup(doc, target_key(triple, field)), target_key(triple, field))
}

/// Whether to build with xargo: the build-level `build.image` value where the
/// document sets one, else `target.<triple>.xargo`.
pub open spec fn xargo_setting(doc: Seq<char>, triple: Seq<char>) -> Result<
    Option<bool>,
    (ConfigErrorKind, Seq<char>),
> {
    let build = toml_lookup(doc, "build.image"@);
    if build is Absent {
        bool_setting(toml_lookup(doc, target_key(triple, "xargo"@)), target_key(triple, "xargo"@))
    } else {
        bool_setting(build, "build.image"@)
    }
}

/// The variables that `build.env.passthrough` passes to every target.
pub open spec fn build_passthrough(doc: Seq<char>) -> Result<
    Seq<Seq<char>>,
    (ConfigErrorKind, Seq<char>),
> {
    list_setting(toml_lookup(doc, "build.env.passthrough"@), "build.env.passthrough"@)
}

/// The variables that `target.<triple>.env.passthrough` passes to one target.
pub open spec fn target_passthrough(doc: Seq<char>, triple: Seq<char>) -> Result<
    Seq<Seq<char>>,
    (ConfigErrorKind, Seq<char>),
> {
    list_setting(
        toml_lookup(doc, target_key(triple, "env.passthrough"@)),
        target_key(triple, "env.passthrough"@),
    )
}

/// All variables passed to a target: those of `build` followed by those of the
/// target; the first refusal, in that order, where there is one.
pub open spec fn env_passthrough_setting(doc: Seq<char>, triple: Seq<char>) -> Result<
    Seq<Seq<char>>,
    (ConfigErrorKind, Seq<char>),
> {
    match build_passthrough(doc) {
        Err(e) => Err(e),
        Ok(b) => match target_passthrough(doc, triple) {
            Err(e) => Err(e),
            Ok(t) => Ok(b + t),
        },
    }
}

/// A build-level `build.image` value overrides every `target.<triple>.xargo` setting.
pub proof fn lemma_build_setting_overrides_target_xargo(doc: Seq<char>, triple: Seq<char>)
    requires
        !(toml_lookup(doc, "build.image"@) is Absent),
    ensures
        xargo_setting(doc, triple) == bool_setting(toml_lookup(doc, "build.image"@), "build.image"@),
{
}

/// Where neither list is refused, the variables passed to a target are those of
/// `build` followed by those of the target; otherwise the refusal of `build`
/// comes first.
pub proof fn lemma_env_passthrough_concatenates(doc: Seq<char>, triple: Seq<char>)
    ensures
        match (build_passthrough(doc), target_passthrough(doc, triple)) {
            (Ok(b), Ok(t)) => env_passthrough_setting(doc, triple) == Ok::<
                Seq<Seq<char>>,
                (ConfigErrorKind, Seq<char>),
            >(b + t),
            (Err(e), _) => env_passthrough_setting(doc, triple) == Err::<
                Seq<Seq<char>>,
                (ConfigErrorKind, Seq<char>),
            >(e),
            (Ok(_), Err(e)) => env_passthrough_setting(doc, triple) == Err::<
                Seq<Seq<char>>,
                (ConfigErrorKind, Seq<char>),
            >(e),
        },
{
}

/// A list read from an array whose elements are all strings holds every one of
/// those strings, in the order of the array; an array with an element that is not a
/// string is refused under its key; anything that is not an array gives no strings.
pub proof fn lemma_list_reads_every_element(item: TomlItem, key: Seq<char>)
    ensures
        match item {
            TomlItem::Array(v) => {
                &&& (forall|i: int| 0 <= i < v@.len() ==> (#[trigger] v@[i]) is Some) ==> (
                list_setting(item, key) matches Ok(r) && r.len() == v@.len() && (forall|i: int|
                    0 <= i < v@.len() ==> (#[trigger] r[i]) == v@[i]->0@))
                &&& (exists|i: int| 0 <= i < v@.len() && (#[trigger] v@[i]) is None) ==> list_setting(
                    item,
                    key,
                ) == Err::<Seq<Seq<char>>, (ConfigErrorKind, Seq<char>)>(
                    (ConfigErrorKind::NotAllStrings, key),
                )
            },
            _ => list_setting(item, key) == Ok::<Seq<Seq<char>>, (ConfigErrorKind, Seq<char>)>(
                Seq::empty(),
            ),
        },
{
}

/// The string setting `<field>` of any target is what the document holds under
/// `target.<triple>.<field>`: a string gives that string, nothing gives `None`, and
/// anything else is refused under that key. No triple is treated differently.
pub proof fn lemma_target_string_reads_its_key(doc: Seq<char>, triple: Seq<char>, field: Seq<char>)
    ensures
        ({
            let key = "target."@ + triple + "."@ + field;
            &&& toml_lookup(doc, key) is Absent ==> target_string_setting(doc, triple, field)
                == Ok::<Option<Seq<char>>, (ConfigErrorKind, Seq<char>)>(None)
            &&& toml_lookup(doc, key) matches TomlItem::Str(s) ==> target_string_setting(
                doc,
                triple,
                field,
            ) == Ok::<Option<Seq<char>>, (ConfigErrorKind, Seq<char>)>(Some(s@))
            &&& !(toml_lookup(doc, key) is Absent) && !(toml_lookup(doc, key) is Str)
                ==> target_string_setting(doc, triple, field) == Err::<
                Option<Seq<char>>,
                (ConfigErrorKind, Seq<char>),
            >((ConfigErrorKind::NotAString, key))
        }),
{
}

/// Without a build-level value, the xargo setting of a target is what the document
/// holds under `target.<triple>.xargo`: a boolean gives that boolean, nothing gives
/// `None`, anything else is refused under that key. With a build-level boolean,
/// that boolean is the setting for every target.
pub proof fn lemma_xargo_reads_target_key(doc: Seq<char>, triple: Seq<char>)
    ensures
        ({
            let key = "target."@ + triple + "."@ + "xargo"@;
            match toml_lookup(doc, "build.image"@) {
                TomlItem::Absent => match toml_lookup(doc, key) {
                    TomlItem::Absent => xargo_setting(doc, triple) == Ok::<
                        Option<bool>,
                        (ConfigErrorKind, Seq<char>),
                    >(None),
                    TomlItem::Boolean(b) => xargo_setting(doc, triple) == Ok::<
                        Option<bool>,
                        (ConfigErrorKind, Seq<char>),
                    >(Some(b)),
                    _ => xargo_setting(doc, triple) == Err::<
                        Option<bool>,
                        (ConfigErrorKind, Seq<char>),
                    >((ConfigErrorKind::NotABoolean, key)),
                },
                TomlItem::Boolean(b) => xargo_setting(doc, triple) == Ok::<
                    Option<bool>,
                    (ConfigErrorKind, Seq<char>),
                >(Some(b)),
                _ => xargo_setting(doc, triple) == Err::<
                    Option<bool>,
                    (ConfigErrorKind, Seq<char>),
                >((ConfigErrorKind::NotABoolean, "build.image"@)),
            }
        }),
{
}

/// The variables of `build` are the list read under `build.env.passthrough`, and
/// those of a target the list read under `target.<triple>.env.passthrough`.
pub proof fn lemma_passthrough_lists_read_their_keys(doc: Seq<char>, triple: Seq<char>)
    ensures
        build_passthrough(doc) == list_setting(
            toml_lookup(doc, "build.env.passthrough"@),
            "build.env.passthrough"@,
        ),
        ({
            let key = "target."@ + triple + "."@ + "env.passthrough"@;
            target_passthrough(doc, triple) == list_setting(toml_lookup(doc, key), key)
        }),
{
}

/// The plain views of results keep every string, flag and error as it is.
pub proof fn lemma_result_views_are_faithful(
    e: ConfigError,
    text: Result<Option<String>, ConfigError>,
    flag: Result<Option<bool>, ConfigError>,
    list: Result<Vec<String>, ConfigError>,
)
    ensures
        error_view(e).0 == e.kind,
        error_view(e).1 == e.subject@,
        match text {
            Ok(Some(s)) => text_result_view(text) == Ok::<
                Option<Seq<char>>,
                (ConfigErrorKind, Seq<char>),
            >(Some(s@)),
            Ok(None) => text_result_view(text) == Ok::<
                Option<Seq<char>>,
                (ConfigErrorKind, Seq<char>),
            >(None),
            Err(e) => text_result_view(text) == Err::<
                Option<Seq<char>>,
                (ConfigErrorKind, Seq<char>),
            >((e.kind, e.subject@)),
        },
        match flag {
            Ok(b) => flag_result_view(flag) == Ok::<Option<bool>, (ConfigErrorKind, Seq<char>)>(b),
            Err(e) => flag_result_view(flag) == Err::<Option<bool>, (ConfigErrorKind, Seq<char>)>(
                (e.kind, e.subject@),
            ),
        },
        match list {
            Ok(v) => list_result_view(list) matches Ok(w) && w.len() == v@.len() && (forall|i: int|
                0 <= i < v@.len() ==> (#[trigger] w[i]) == v@[i]@),
            Err(e) => list_result_view(list) == Err::<
                Seq<Seq<char>>,
                (ConfigErrorKind, Seq<char>),
            >((e.kind, e.subject@)),
        },
{
}

/// A parsed `Cross.toml`: the text of a document that the TOML parser accepts.
/// Each setting is looked up in that document when it is asked for.
pub struct Toml {
    source: String,
}

impl View for Toml {
    type V = Seq<char>;

    closed spec fn view(&self) -> Seq<char> {
        self.source@
    }
}

impl Toml {
    #[verifier::type_invariant]
    closed spec fn holds_document(self) -> bool {
        toml_parses(self.source@)
    }

    /// Takes `text` as `Cross.toml`; `None` where it is not a TOML document.
    pub fn parse(text: String) -> (r: Option<Toml>)
        ensures
            r is Some <==> toml_parses(text@),
            r matches Some(t) ==> t@ == text@,
    {
        if text_parses(text.as_str()) {
            Some(Toml { source: text })
        } else {
            None
        }
    }

    fn target_string(&self, target: &Target, field: &str) -> (r: Result<Option<String>, ConfigError>)
        requires
            !(target is Other),
        ensures
            text_result_view(r) == target_string_setting(self@, target.spec_triple(), field@),
    {
        let key = target_key_text(target.triple(), field);
        read_string(&lookup_item(self.source.as_str(), key.as_str()), key.as_str())
    }

    /// Returns the `target.<triple>.image` part of `Cross.toml`.
    pub fn image(&self, target: &Target) -> (r: Result<Option<String>, ConfigError>)
        requires
            !(target is Other),
        ensures
            text_result_view(r) == target_string_setting(self@, target.spec_triple(), "image"@),
    {
        self.target_string(target, "image")
    }

    /// Returns the `target.<triple>.toolchain` part of `Cross.toml`.
    pub fn toolchain(&self, target: &Target) -> (r: Result<Option<String>, ConfigError>)
        requires
            !(target is Other),
        ensures
            text_result_view(r) == target_string_setting(
                self@,
                target.spec_triple(),
                "toolchain"@,
            ),
    {
        self.target_string(target, "toolchain")
    }

    /// Returns the `build.image` or the `target.<triple>.xargo` part of `Cross.toml`.
    pub fn xargo(&self, target: &Target) -> (r: Result<Option<bool>, ConfigError>)
        requires
            !(target is Other),
        ensures
            flag_result_view(r) == xargo_setting(self@, target.spec_triple()),
    {
        let build = lookup_item(self.source.as_str(), "build.image");
        match build {
            TomlItem::Absent => {
                let key = target_key_text(target.triple(), "xargo");
                read_bool(&lookup_item(self.source.as_str(), key.as_str()), key.as_str())
            },
            _ => read_bool(&build, "build.image"),
        }
    }

    /// Returns the list of environment variables to pass through for `target`,
    /// including variables specified under `build` and under `target`.
    pub fn env_passthrough(&self, target: &Target) -> (r: Result<Vec<String>, ConfigError>)
        requires
            !(target is Other),
        ensures
            list_result_view(r) == env_passthrough_setting(self@, target.spec_triple()),
    {
        let mut bwl = match self.build_env_passthrough() {
            Ok(v) => v,
            Err(e) => return Err(e),
        };
        let mut twl = match self.target_env_passthrough(target) {
            Ok(v) => v,
            Err(e) => return Err(e),
        };
        let ghost b = bwl@;
        let ghost t = twl@;
        bwl.append(&mut twl);
        assert(string_views(bwl@) =~= string_views(b) + string_views(t));
        Ok(bwl)
    }

    /// Returns the `build.env.passthrough` part of `Cross.toml`.
    pub fn build_env_passthrough(&self) -> (r: Result<Vec<String>, ConfigError>)
        ensures
            list_result_view(r) == build_passthrough(self@),
    {
        read_string_list(
            &lookup_item(self.source.as_str(), "build.env.passthrough"),
            "build.env.passthrough",
        )
    }

    /// Returns the `target.<triple>.env.passthrough` part of `Cross.toml` for `target`.
    pub fn target_env_passthrough(&self, target: &Target) -> (r: Result<Vec<String>, ConfigError>)
        requires
            !(target is Other),
        ensures
            list_result_view(r) == target_passthrough(self@, target.spec_triple()),
    {
        let key = target_key_text(target.triple(), "env.passthrough");
        read_string_list(&lookup_item(self.source.as_str(), key.as_str()), key.as_str())
    }
}

/// Takes the contents of the `Cross.toml` at `path` (`None` where there is no such
/// file) as the configuration of the project.
pub fn toml(path: &str, contents: Option<String>) -> (r: Result<Option<Toml>, ConfigError>)
    ensures
        contents is None ==> r matches Ok(None),
        contents matches Some(text) ==> {
            &&& toml_parses(text@) ==> (r matches Ok(Some(t)) && t@ == text@)
            &&& !toml_parses(text@) ==> (r matches Err(e) && error_view(e) == (
                ConfigErrorKind::Unparsable,
                path@,
            ))
        },
{
    match contents {
        None => Ok(None),
        Some(text) => match Toml::parse(text) {
            Some(t) => Ok(Some(t)),
            None => Err(config_error(ConfigErrorKind::Unparsable, path)),
        },
    }
}

} // verus!
