# oidcx

A service that exchanges OIDC identity tokens for short-lived GitHub and Oxide
tokens. It has one endpoint, `POST /exchange`. A request carries an identity
token and says what access token it is for; the service verifies the identity
token, asks the authorization policy, and only then asks GitHub or an Oxide
silo for the access token.

The library under `src/` holds every decision that the service takes, and Verus
verifies it. The program under `app/` does the input and output: it reads the
settings, fetches what identity providers publish, sends requests to GitHub and
to silos, and hands the answers back to the library.

## Layout

| Module | What it holds |
| --- | --- |
| `jwt` | keys, claims and the calls that decode, verify and sign tokens |
| `oidc` | which identity tokens are accepted |
| `cedar` | schemas, policies, entities and the calls that decide on them |
| `policy` | who may have which token |
| `visibility` | how long the visibility of a repository is remembered |
| `token::github` | GitHub tokens, from the request to the access token |
| `token::oxide` | Oxide tokens, from the request to the access token |
| `endpoints` | the exchange as a whole, and what is told of a failure |
| `context`, `settings`, `providers` | what the service is configured with |
| `http`, `util`, `text`, `string_map` | what the others are built from |

What follows an answer from outside is written as a step: a function that takes
the answer and gives the next request or the outcome. `GitHubTokens::get` gives
an `InstallationLookup`, whose `answer` gives the next lookup or the request for
the access token, and so on.

## What is proved

Each function states what it returns for every input. Beyond that, public proof
functions state what holds of several of them together, among others:

* an accepted token names the issuer and the audience, and is signed with the
  algorithm that its key is for;
* GitHub is asked for nothing but what the policy grants, of every repository
  and every permission, and a silo for no deployment that it does not grant;
* all refusals of the policy look alike from outside, and so do all failures
  whose reason is confidential;
* a silo is asked for no longer lifetime than is allowed.

The calls into `jsonwebtoken`, `cedar_policy` and `reqwest` are not proved. Each
stands in a function of its own, whose comment says what is taken on trust.

## Authorization policy

The policy is written in Cedar and lies in two files next to each other, which
differ in their extension: `.cedarschema` and `.cedar`. Principals are of type
`Oidcx::WorkflowRun`, resources of type `Oidcx::Repository` or `Oidcx::Silo`.
The action on a silo is `deploy`; the actions on a repository are the
permissions of the request, such as `contents:read`. Each permission is checked
on each repository.

A policy whose evaluation fails counts as absent. One that fails for want of
stack is named in the grant as skipped, and the service logs it.
