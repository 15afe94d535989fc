//! The token creation form: which of its inputs hold an invalid value, the
//! count of such inputs that the form keeps, and when the create button is
//! disabled.
use vstd::prelude::*;

verus! {

/// The validation state of one input of the form.
#[derive(Clone, Copy, Debug, PartialEq, Eq, Structural)]
pub struct InputState {
    /// The input's current value does not pass its validator (an input with
    /// no initial value starts out so).
    pub error: bool,
    /// The user has typed an invalid value at least once, so errors are shown.
    pub show_error: bool,
}

impl InputState {
    /// Whether the input is drawn in red with the text "Invalid".
    pub fn shows_error(&self) -> (r: bool)
        ensures
            r == (self.show_error && self.error),
    {
        self.show_error && self.error
    }
}

/// The number of inputs in `s` whose value is invalid.
pub open spec fn count_errors(s: Seq<InputState>) -> nat
    decreases s.len(),
{
    if s.len() == 0 {
        0
    } else {
        count_errors(s.drop_last()) + if s.last().error {
            1nat
        } else {
            0nat
        }
    }
}

/// Counting after one input changed: the old input's error leaves the count
/// and the new one's enters it.
pub proof fn lemma_count_errors_update(s: Seq<InputState>, i: int, x: InputState)
    requires
        0 <= i < s.len(),
    ensures
        count_errors(s.update(i, x)) + (if s[i].error {
            1int
        } else {
            0int
        }) == count_errors(s) + (if x.error {
            1int
        } else {
            0int
        }),
    decreases s.len(),
{
    if i == s.len() - 1 {
        assert(s.update(i, x).drop_last() =~= s.drop_last());
    } else {
        lemma_count_errors_update(s.drop_last(), i, x);
        assert(s.update(i, x).drop_last() =~= s.drop_last().update(i, x));
    }
}

/// No input is counted beyond the inputs there are; the count is zero exactly
/// when no input is invalid.
pub proof fn lemma_count_errors_bounds(s: Seq<InputState>)
    ensures
        count_errors(s) <= s.len(),
        (count_errors(s) == 0) <==> (forall|i: int| 0 <= i < s.len() ==> !(#[trigger] s[i]).error),
    decreases s.len(),
{
    if s.len() > 0 {
        lemma_count_errors_bounds(s.drop_last());
        if count_errors(s) == 0 {
            assert forall|i: int| 0 <= i < s.len() implies !(#[trigger] s[i]).error by {
                if i < s.len() - 1 {
                    assert(s[i] == s.drop_last()[i]);
                }
            }
        }
        if forall|i: int| 0 <= i < s.len() ==> !(#[trigger] s[i]).error {
            assert forall|i: int| 0 <= i < s.drop_last().len() implies !(
            #[trigger] s.drop_last()[i]).error by {
                assert(s.drop_last()[i] == s[i]);
            }
            assert(!s[s.len() - 1].error);
        }
    }
}

/// The inputs of the form and the count of invalid ones.
pub struct CreateTokenCtx {
    inputs: Vec<InputState>,
    invalid_cnt: u32,
}

impl CreateTokenCtx {
    /// The inputs, in the order they were added.
    pub closed spec fn inputs(&self) -> Seq<InputState> {
        self.inputs@
    }

    /// The count of invalid inputs that the form keeps.
    pub closed spec fn invalid_count(&self) -> u32 {
        self.invalid_cnt
    }

    /// The count agrees with the inputs, and there are no more inputs than a
    /// `u32` counts.
    pub open spec fn wf(&self) -> bool {
        &&& self.invalid_count() == count_errors(self.inputs())
        &&& self.inputs().len() <= u32::MAX
    }

    /// A form with no inputs yet.
    pub fn new() -> (f: CreateTokenCtx)
        ensures
            f.wf(),
            f.inputs() == Seq::<InputState>::empty(),
            f.invalid_count() == 0,
    {
        CreateTokenCtx { inputs: Vec::new(), invalid_cnt: 0 }
    }

    /// The number of inputs.
    pub fn len(&self) -> (r: usize)
        ensures
            r == self.inputs().len(),
    {
        self.inputs.len()
    }

    /// The state of input `idx`.
    pub fn input(&self, idx: usize) -> (r: InputState)
        requires
            idx < self.inputs().len(),
        ensures
            r == self.inputs()[idx as int],
    {
        self.inputs[idx]
    }

    /// The count of invalid inputs.
    pub fn invalid_cnt(&self) -> (r: u32)
        ensures
            r == self.invalid_count(),
    {
        self.invalid_cnt
    }

    /// Adds an input; one without an initial value starts out invalid and is
    /// counted. Returns the input's index.
    pub fn add_input(&mut self, has_initial_value: bool) -> (idx: usize)
        requires
            old(self).wf(),
            old(self).inputs().len() < u32::MAX,
        ensures
            final(self).wf(),
            idx == old(self).inputs().len(),
            final(self).inputs() == old(self).inputs().push(
                InputState { error: !has_initial_value, show_error: false },
            ),
            final(self).invalid_count() == old(self).invalid_count() + if has_initial_value {
                0int
            } else {
                1int
            },
    {
        proof {
            lemma_count_errors_bounds(self.inputs@);
        }
        let idx = self.inputs.len();
        let st = InputState { error: !has_initial_value, show_error: false };
        let ghost before = self.inputs@;
        self.inputs.push(st);
        assert(self.inputs@.drop_last() =~= before);
        if !has_initial_value {
            self.invalid_cnt = self.invalid_cnt + 1;
        }
        idx
    }

    /// The user typed into input `idx`, and its validator passed (`valid`) or
    /// not. A valid value clears the input's error; an invalid one shows the
    /// error, and marks and counts the input if it was not invalid already.
    pub fn on_input(&mut self, idx: usize, valid: bool)
        requires
            old(self).wf(),
            idx < old(self).inputs().len(),
        ensures
            final(self).wf(),
            final(self).inputs() == old(self).inputs().update(
                idx as int,
                if valid {
                    InputState { error: false, show_error: old(self).inputs()[idx as int].show_error }
                } else {
                    InputState { error: true, show_error: true }
                },
            ),
    {
        proof {
            lemma_count_errors_bounds(self.inputs@);
        }
        let cur = self.inputs[idx];
        let next = if valid {
            InputState { error: false, show_error: cur.show_error }
        } else {
            InputState { error: true, show_error: true }
        };
        proof {
            lemma_count_errors_update(self.inputs@, idx as int, next);
            assert(self.inputs@.update(idx as int, next).len() == self.inputs@.len());
            lemma_count_errors_bounds(self.inputs@.update(idx as int, next));
        }
        if valid {
            if cur.error {
                self.invalid_cnt = self.invalid_cnt - 1;
            }
        } else {
            if !cur.error {
                self.invalid_cnt = self.invalid_cnt + 1;
            }
        }
        self.inputs.set(idx, next);
    }

    /// The settings were reset and input `idx` checked its value again: as a
    /// typed value, except that an error not shown before stays hidden.
    pub fn on_form_reset(&mut self, idx: usize, valid: bool)
        requires
            old(self).wf(),
            idx < old(self).inputs().len(),
        ensures
            final(self).wf(),
            final(self).inputs() == old(self).inputs().update(
                idx as int,
                InputState {
                    error: !valid,
                    show_error: old(self).inputs()[idx as int].show_error,
                },
            ),
    {
        let cur_show_err = self.inputs[idx].show_error;
        self.on_input(idx, valid);
        if !cur_show_err {
            let st = self.inputs[idx];
            let ghost before = self.inputs@;
            proof {
                lemma_count_errors_update(before, idx as int, InputState { error: st.error, show_error: false });
            }
            self.inputs.set(idx, InputState { error: st.error, show_error: false });
        }
        assert(self.inputs@ =~= old(self).inputs().update(
            idx as int,
            InputState {
                error: !valid,
                show_error: old(self).inputs()[idx as int].show_error,
            },
        ));
    }

    /// The form after a token was created: its inputs are gone and nothing is
    /// counted.
    pub fn reset(&mut self)
        ensures
            final(self).wf(),
            final(self).inputs() == Seq::<InputState>::empty(),
            final(self).invalid_count() == 0,
    {
        self.inputs = Vec::new();
        self.invalid_cnt = 0;
    }
}

/// The count that the form keeps is zero exactly when none of its inputs is
/// invalid, and it never exceeds the number of inputs.
pub proof fn lemma_form_valid_iff_no_errors(f: CreateTokenCtx)
    requires
        f.wf(),
    ensures
        f.invalid_count() <= f.inputs().len(),
        (f.invalid_count() == 0) <==> (forall|i: int|
            0 <= i < f.inputs().len() ==> !(#[trigger] f.inputs()[i]).error),
{
    lemma_count_errors_bounds(f.inputs());
}

/// Whether the create button is disabled: while a creation is under way, when
/// nobody is signed in, when the logo, name, description or symbol is
/// missing, or while any input is invalid.
pub fn create_disabled(
    creating: bool,
    signed_in: bool,
    has_logo: bool,
    has_name: bool,
    has_description: bool,
    has_symbol: bool,
    invalid_cnt: u32,
) -> (r: bool)
    ensures
        r == (creating || !signed_in || !has_logo || !has_name || !has_description || !has_symbol
            || invalid_cnt != 0),
{
    creating || !signed_in || !has_logo || !has_name || !has_description || !has_symbol
        || invalid_cnt != 0
}

/// The text of the create button.
pub fn create_button_text(creating: bool) -> (r: &'static str)
    ensures
        r@ == (if creating {
            "Creating..."@
        } else {
            "Create"@
        }),
{
    if creating {
        "Creating..."
    } else {
        "Create"
    }
}

} // verus!
