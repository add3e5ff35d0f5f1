//! Names and documentation of the accessor functions that are generated for a
//! global of the host: one function that sets where the global is, and four
//! that read it.

use vstd::prelude::*;
use vstd::string::StringExecFns;

verus! {

/// What kind of global it is.
#[derive(Debug, Clone, PartialEq, Eq)]
pub enum GfdStaticData {
    /// The global is a value of the type `ty` itself.
    Constant { ty: String },
    /// The global is a pointer, of the type `ty`, to a value of the type
    /// `elem` that the host allocates.
    Singleton { ty: String, elem: String },
}

impl GfdStaticData {
    /// The type of the global, as it is written.
    pub open spec fn full_type(&self) -> Seq<char> {
        match self {
            GfdStaticData::Constant { ty } => ty@,
            GfdStaticData::Singleton { ty, elem } => ty@,
        }
    }

    /// The type that the accessors give a reference to, as it is written.
    pub open spec fn return_type(&self) -> Seq<char> {
        match self {
            GfdStaticData::Constant { ty } => ty@,
            GfdStaticData::Singleton { ty, elem } => elem@,
        }
    }

    /// The type of the global, as it is written.
    pub fn get_full_type_as_tokens(&self) -> (text: String)
        ensures
            text@ == self.full_type(),
    {
        match self {
            GfdStaticData::Constant { ty } => ty.clone(),
            GfdStaticData::Singleton { ty, elem } => ty.clone(),
        }
    }

    /// The type that the accessors give a reference to, as it is written.
    pub fn get_return_type_as_tokens(&self) -> (text: String)
        ensures
            text@ == self.return_type(),
    {
        match self {
            GfdStaticData::Constant { ty } => ty.clone(),
            GfdStaticData::Singleton { ty, elem } => elem.clone(),
        }
    }
}

/// The lower-case letter for an ASCII upper-case letter, and any other
/// character itself.
pub open spec fn ascii_lower(c: char) -> char {
    if 'A' <= c && c <= 'Z' {
        ((c as u32) + 32) as char
    } else {
        c
    }
}

/// `str::to_ascii_lowercase`: a copy of the string in which each ASCII
/// upper-case letter is replaced by its lower-case letter.
#[verifier::external_body]
fn to_ascii_lowercase(s: &str) -> (lower: String)
    ensures
        lower@ == s@.map_values(|c: char| ascii_lower(c)),
{
    s.to_ascii_lowercase()
}

/// The three strings one after another.
fn join3(a: &str, b: &str, c: &str) -> (text: String)
    ensures
        text@ == a@ + b@ + c@,
{
    String::from_str(a).concat(b).concat(c)
}

/// A global of the host for which accessors are generated.
#[derive(Debug, Clone, PartialEq, Eq)]
pub struct GfdStatic {
    name: String,
    name_lower: String,
    data: GfdStaticData,
}

impl GfdStatic {
    /// The name of the global.
    pub closed spec fn name(&self) -> Seq<char> {
        self.name@
    }

    /// The name of the global in lower case, from which the names of the
    /// accessors are made.
    pub closed spec fn name_lower(&self) -> Seq<char> {
        self.name_lower@
    }

    /// What kind of global it is.
    pub closed spec fn data(&self) -> GfdStaticData {
        self.data
    }

    /// The global `name` of the kind `data`.
    pub fn new(name: &str, data: GfdStaticData) -> (out: Self)
        ensures
            out.name() == name@,
            out.name_lower() == name@.map_values(|c: char| ascii_lower(c)),
            out.data() == data,
    {
        Self { name: String::from_str(name), name_lower: to_ascii_lowercase(name), data }
    }

    /// The name of the global.
    pub fn get_name(&self) -> (name: &str)
        ensures
            name@ == self.name(),
    {
        self.name.as_str()
    }

    /// What kind of global it is.
    pub fn get_data(&self) -> (data: &GfdStaticData)
        ensures
            *data == self.data(),
    {
        &self.data
    }

    /// The name of the function that gives a reference to the global if it is
    /// set.
    pub fn get_checked_pointer_function_name(&self, is_mutable: bool) -> (name: String)
        ensures
            name@ == (if is_mutable {
                "get_"@ + self.name_lower() + "_mut"@
            } else {
                "get_"@ + self.name_lower()
            }),
    {
        if is_mutable {
            join3("get_", self.name_lower.as_str(), "_mut")
        } else {
            String::from_str("get_").concat(self.name_lower.as_str())
        }
    }

    /// The name of the function that gives a reference to the global without
    /// checking that it is set.
    pub fn get_unchecked_pointer_function_name(&self, is_mutable: bool) -> (name: String)
        ensures
            name@ == (if is_mutable {
                "get_"@ + self.name_lower() + "_unchecked_mut"@
            } else {
                "get_"@ + self.name_lower() + "_unchecked"@
            }),
    {
        if is_mutable {
            join3("get_", self.name_lower.as_str(), "_unchecked_mut")
        } else {
            join3("get_", self.name_lower.as_str(), "_unchecked")
        }
    }

    /// The name of the function that sets where the global is.
    pub fn get_set_pointer_name(&self) -> (name: String)
        ensures
            name@ == "set_"@ + self.name_lower(),
    {
        String::from_str("set_").concat(self.name_lower.as_str())
    }

    /// The documentation of the function that sets where the global is.
    pub fn get_set_name_comment(&self) -> (comment: String)
        ensures
            comment@ == (if self.data() is Constant {
                "/// Set the pointer to the memory location containing the beginning of "@
            } else {
                "/// Set the pointer to the memory location containing a pointer to "@
            }) + self.name()
                + ".\n    /// This method must only be called once, otherwise it will panic."@,
    {
        let tail = ".\n    /// This method must only be called once, otherwise it will panic.";
        match &self.data {
            GfdStaticData::Constant { .. } => join3(
                "/// Set the pointer to the memory location containing the beginning of ",
                self.name.as_str(),
                tail,
            ),
            GfdStaticData::Singleton { .. } => join3(
                "/// Set the pointer to the memory location containing a pointer to ",
                self.name.as_str(),
                tail,
            ),
        }
    }

    /// The documentation of the function that gives a shared reference to the
    /// global if it is set.
    pub fn create_get_comment(&self) -> (comment: String)
        ensures
            comment@ == "/// Get a possible reference to "@ + self.name()
                + ". This checks to see if `"@ + ("set_"@ + self.name_lower())
                + "`\n    /// was called previously and if either you or the hooked process have allocated the instance of it."@,
    {
        let setter = self.get_set_pointer_name();
        join3("/// Get a possible reference to ", self.name.as_str(), ". This checks to see if `")
            .concat(setter.as_str()).concat(
            "`\n    /// was called previously and if either you or the hooked process have allocated the instance of it.",
        )
    }

    /// The documentation of the function that gives a mutable reference to the
    /// global if it is set.
    pub fn create_get_mut_comment(&self) -> (comment: String)
        ensures
            comment@ == "/// Like `"@ + ("get_"@ + self.name_lower() + "_mut"@)
                + "`, but a mutable reference is created instead."@,
    {
        let getter = self.get_checked_pointer_function_name(true);
        join3("/// Like `", getter.as_str(), "`, but a mutable reference is created instead.")
    }

    /// The documentation of the function that gives a shared reference to the
    /// global without checking that it is set.
    pub fn create_get_unchecked_comment(&self) -> (comment: String)
        ensures
            comment@ == "/// An unchecked version of `"@ + ("get_"@ + self.name_lower())
                + "`. This assumes that "@ + self.name()
                + "\n    /// is set and it's initialized."@,
    {
        let getter = self.get_checked_pointer_function_name(false);
        join3("/// An unchecked version of `", getter.as_str(), "`. This assumes that ").concat(
            self.name.as_str(),
        ).concat("\n    /// is set and it's initialized.")
    }

    /// The documentation of the function that gives a mutable reference to the
    /// global without checking that it is set.
    pub fn create_get_unchecked_mut_comment(&self) -> (comment: String)
        ensures
            comment@ == "/// An unchecked version of `"@ + ("get_"@ + self.name_lower()
                + "_mut"@) + "`. This assumes that "@ + self.name()
                + "\n    /// is set and it's initialized."@,
    {
        let getter = self.get_checked_pointer_function_name(true);
        join3("/// An unchecked version of `", getter.as_str(), "`. This assumes that ").concat(
            self.name.as_str(),
        ).concat("\n    /// is set and it's initialized.")
    }
}

} // verus!
