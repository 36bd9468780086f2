//! Storage classes that objects move to some days after they were stored.
use vstd::prelude::*;

use aws_sdk_s3::types::TransitionStorageClass as ServiceClass;

verus! {

/// A storage class that a lifecycle rule can move objects to.
///
/// `Unknown` stands for a class that the storage service names and this library
/// has no variant for.
#[derive(Debug)]
pub enum TransitionStorageClass {
    DeepArchive,
    Glacier,
    GlacierIr,
    IntelligentTiering,
    OnezoneIa,
    StandardIa,
    Unknown(String),
}

impl TransitionStorageClass {
    /// Whether the class is one that has a variant of its own.
    pub open spec fn is_known(self) -> bool {
        !(self is Unknown)
    }
}

/// The name that the storage service gives a class.
impl View for TransitionStorageClass {
    type V = Seq<char>;

    open spec fn view(&self) -> Seq<char> {
        match self {
            TransitionStorageClass::DeepArchive => "DEEP_ARCHIVE"@,
            TransitionStorageClass::Glacier => "GLACIER"@,
            TransitionStorageClass::GlacierIr => "GLACIER_IR"@,
            TransitionStorageClass::IntelligentTiering => "INTELLIGENT_TIERING"@,
            TransitionStorageClass::OnezoneIa => "ONEZONE_IA"@,
            TransitionStorageClass::StandardIa => "STANDARD_IA"@,
            TransitionStorageClass::Unknown(name) => name@,
        }
    }
}

/// The class with the name `name`, where it has a variant of its own.
pub open spec fn known_class(name: Seq<char>) -> Option<TransitionStorageClass> {
    if name == "DEEP_ARCHIVE"@ {
        Some(TransitionStorageClass::DeepArchive)
    } else if name == "GLACIER"@ {
        Some(TransitionStorageClass::Glacier)
    } else if name == "GLACIER_IR"@ {
        Some(TransitionStorageClass::GlacierIr)
    } else if name == "INTELLIGENT_TIERING"@ {
        Some(TransitionStorageClass::IntelligentTiering)
    } else if name == "ONEZONE_IA"@ {
        Some(TransitionStorageClass::OnezoneIa)
    } else if name == "STANDARD_IA"@ {
        Some(TransitionStorageClass::StandardIa)
    } else {
        None
    }
}

/// Calls `aws_sdk_s3::types::TransitionStorageClass::as_str` on the variant of the
/// same name; for `Unknown`, on what that type's `From<&str>` makes of the name.
/// Claims that the answer is the name given by the view: the upper-case constant of
/// each variant, and the name itself for `Unknown`.
#[verifier::external_body]
fn service_name(class: &TransitionStorageClass) -> (r: String)
    ensures
        r@ == class@,
{
    let class = match class {
        TransitionStorageClass::DeepArchive => ServiceClass::DeepArchive,
        TransitionStorageClass::Glacier => ServiceClass::Glacier,
        TransitionStorageClass::GlacierIr => ServiceClass::GlacierIr,
        TransitionStorageClass::IntelligentTiering => ServiceClass::IntelligentTiering,
        TransitionStorageClass::OnezoneIa => ServiceClass::OnezoneIa,
        TransitionStorageClass::StandardIa => ServiceClass::StandardIa,
        TransitionStorageClass::Unknown(name) => ServiceClass::from(name.as_str()),
    };
    class.as_str().to_owned()
}

/// Calls `aws_sdk_s3::types::TransitionStorageClass::try_parse`, which refuses names
/// without a variant. Claims that exactly the six upper-case names are accepted, each
/// as its own variant.
#[verifier::external_body]
fn service_class(name: &str) -> (r: Option<TransitionStorageClass>)
    ensures
        r == known_class(name@),
{
    match ServiceClass::try_parse(name) {
        Ok(ServiceClass::DeepArchive) => Some(TransitionStorageClass::DeepArchive),
        Ok(ServiceClass::Glacier) => Some(TransitionStorageClass::Glacier),
        Ok(ServiceClass::GlacierIr) => Some(TransitionStorageClass::GlacierIr),
        Ok(ServiceClass::IntelligentTiering) => Some(TransitionStorageClass::IntelligentTiering),
        Ok(ServiceClass::OnezoneIa) => Some(TransitionStorageClass::OnezoneIa),
        Ok(ServiceClass::StandardIa) => Some(TransitionStorageClass::StandardIa),
        _ => None,
    }
}

/// The class with the name `name`; nothing where the storage service has no such class.
pub fn parse_storage_class(name: &str) -> (r: Option<TransitionStorageClass>)
    ensures
        r == known_class(name@),
{
    service_class(name)
}

impl TransitionStorageClass {
    /// The name under which the storage service knows the class.
    pub fn as_str(&self) -> (r: String)
        ensures
            r@ == self@,
    {
        service_name(self)
    }
}

impl Clone for TransitionStorageClass {
    fn clone(&self) -> (r: Self)
        ensures
            r == *self,
    {
        match self {
            TransitionStorageClass::DeepArchive => TransitionStorageClass::DeepArchive,
            TransitionStorageClass::Glacier => TransitionStorageClass::Glacier,
            TransitionStorageClass::GlacierIr => TransitionStorageClass::GlacierIr,
            TransitionStorageClass::IntelligentTiering => {
                TransitionStorageClass::IntelligentTiering
            },
            TransitionStorageClass::OnezoneIa => TransitionStorageClass::OnezoneIa,
            TransitionStorageClass::StandardIa => TransitionStorageClass::StandardIa,
            TransitionStorageClass::Unknown(name) => TransitionStorageClass::Unknown(name.clone()),
        }
    }
}

/// The names of the known classes are all different: a class is found again by its name.
pub proof fn storage_class_is_found_by_its_name(class: TransitionStorageClass)
    requires
        class.is_known(),
    ensures
        known_class(class@) == Some(class),
{
    reveal_strlit("DEEP_ARCHIVE");
    reveal_strlit("GLACIER");
    reveal_strlit("GLACIER_IR");
    reveal_strlit("INTELLIGENT_TIERING");
    reveal_strlit("ONEZONE_IA");
    reveal_strlit("STANDARD_IA");
    assert("GLACIER"@.len() == 7 && "STANDARD_IA"@.len() == 11 && "GLACIER_IR"@.len() == 10);
    assert("DEEP_ARCHIVE"@.len() == 12 && "INTELLIGENT_TIERING"@.len() == 19);
    assert("ONEZONE_IA"@.len() == 10 && "ONEZONE_IA"@[0] == 'O' && "GLACIER_IR"@[0] == 'G');
}

/// A name that is accepted is the name of the class that it gives.
pub proof fn parsed_storage_class_has_the_name(name: Seq<char>)
    ensures
        known_class(name) matches Some(class) ==> class.is_known() && class@ == name,
{
}

/// A name is that of a class exactly where it is one of the six that the storage service has, and
/// each of them is the name of one class.
pub proof fn six_names_are_accepted(name: Seq<char>, class: TransitionStorageClass)
    ensures
        known_class(name) == Some(class) <==> {
            ||| name == "DEEP_ARCHIVE"@ && class is DeepArchive
            ||| name == "GLACIER"@ && class is Glacier
            ||| name == "GLACIER_IR"@ && class is GlacierIr
            ||| name == "INTELLIGENT_TIERING"@ && class is IntelligentTiering
            ||| name == "ONEZONE_IA"@ && class is OnezoneIa
            ||| name == "STANDARD_IA"@ && class is StandardIa
        },
        class is Unknown ==> class@ == class->Unknown_0@,
        known_class(name) == Some(class) ==> class@ == name,
{
    storage_class_is_found_by_its_name(TransitionStorageClass::DeepArchive);
    storage_class_is_found_by_its_name(TransitionStorageClass::Glacier);
    storage_class_is_found_by_its_name(TransitionStorageClass::GlacierIr);
    storage_class_is_found_by_its_name(TransitionStorageClass::IntelligentTiering);
    storage_class_is_found_by_its_name(TransitionStorageClass::OnezoneIa);
    storage_class_is_found_by_its_name(TransitionStorageClass::StandardIa);
}

} // verus!
